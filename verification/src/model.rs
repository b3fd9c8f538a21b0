//! The ledger as a mathematical state machine: its state, the calls it takes,
//! when it refuses a call and what a call that it accepts does.

use crate::account::AccountId;
use crate::error::LedgerError;
use crate::total::{amount_at, total};
use crate::Balance;
use vstd::prelude::*;

verus! {

/// The state of a ledger.
pub struct LedgerState {
    /// The display name, set at creation.
    pub name: Seq<char>,
    /// The one account that may mint.
    pub minter: AccountId,
    /// The amount of tokens in existence.
    pub total_supply: nat,
    /// What each account holds. An account without an entry holds nothing.
    pub balances: Map<AccountId, nat>,
    /// What each spender may still move on each owner's behalf, keyed by (owner, spender).
    /// A pair without an entry stands for zero.
    pub allowances: Map<(AccountId, AccountId), nat>,
}

/// A call of one of the five operations that change a ledger, with the account that makes it.
pub enum Call {
    Mint { caller: AccountId, to: AccountId, value: Balance },
    Burn { caller: AccountId, value: Balance },
    Transfer { caller: AccountId, to: AccountId, value: Balance },
    Approve { caller: AccountId, spender: AccountId, value: Balance },
    TransferFrom { caller: AccountId, from: AccountId, to: AccountId, value: Balance },
}

impl LedgerState {
    /// What `owner` holds.
    pub open spec fn balance_of(self, owner: AccountId) -> nat {
        amount_at(self.balances, owner)
    }

    /// What `spender` may still move on behalf of `owner`.
    pub open spec fn allowance(self, owner: AccountId, spender: AccountId) -> nat {
        amount_at(self.allowances, (owner, spender))
    }

    /// Conservation: the total supply is the sum of what all accounts hold.
    pub open spec fn conserved(self) -> bool {
        &&& self.balances.dom().finite()
        &&& self.total_supply == total(self.balances)
    }

    /// Validity: conservation, and every amount is one that a `Balance` can hold.
    pub open spec fn valid(self) -> bool {
        &&& self.conserved()
        &&& self.total_supply <= Balance::MAX
        &&& forall|pair: (AccountId, AccountId)| #[trigger]
            self.allowances.dom().contains(pair) ==> self.allowances[pair] <= Balance::MAX
    }

    /// The ledger as `creator` makes it: no tokens, and an entry of zero for `creator`.
    pub open spec fn genesis(name: Seq<char>, creator: AccountId) -> LedgerState {
        LedgerState {
            name,
            minter: creator,
            total_supply: 0,
            balances: Map::empty().insert(creator, 0nat),
            allowances: Map::empty(),
        }
    }

    /// The state in which `to` holds `value` more.
    pub open spec fn credit(self, to: AccountId, value: nat) -> LedgerState {
        LedgerState { balances: self.balances.insert(to, self.balance_of(to) + value), ..self }
    }

    /// The state in which `from` holds `value` less. Meant for `value <= self.balance_of(from)`.
    pub open spec fn debit(self, from: AccountId, value: nat) -> LedgerState {
        LedgerState {
            balances: self.balances.insert(from, (self.balance_of(from) - value) as nat),
            ..self
        }
    }

    /// Why a call of `caller` to mint `value` is refused, if it is.
    pub open spec fn mint_refusal(self, caller: AccountId, value: Balance) -> Option<LedgerError> {
        if caller != self.minter {
            Some(LedgerError::Unauthorized)
        } else if self.total_supply + value > Balance::MAX {
            Some(LedgerError::ArithmeticOverflow)
        } else {
            None
        }
    }

    /// The state after `value` was minted to `to`.
    pub open spec fn mint(self, to: AccountId, value: Balance) -> LedgerState {
        LedgerState { total_supply: self.total_supply + value as nat, ..self.credit(to, value as nat) }
    }

    /// Why a call of `caller` to burn `value` is refused, if it is.
    pub open spec fn burn_refusal(self, caller: AccountId, value: Balance) -> Option<LedgerError> {
        if self.balance_of(caller) < value {
            Some(LedgerError::InsufficientBalance)
        } else {
            None
        }
    }

    /// The state after `from` burned `value`.
    pub open spec fn burn(self, from: AccountId, value: Balance) -> LedgerState {
        LedgerState {
            total_supply: (self.total_supply - value) as nat,
            ..self.debit(from, value as nat)
        }
    }

    /// Why a call to move `value` out of what `from` holds is refused, if it is.
    pub open spec fn transfer_refusal(self, from: AccountId, value: Balance) -> Option<
        LedgerError,
    > {
        if self.balance_of(from) < value {
            Some(LedgerError::InsufficientBalance)
        } else {
            None
        }
    }

    /// The state after `value` moved from `from` to `to`: taken from the one, then given to
    /// the other.
    pub open spec fn transfer(self, from: AccountId, to: AccountId, value: Balance) -> LedgerState {
        self.debit(from, value as nat).credit(to, value as nat)
    }

    /// The state after `owner` set what `spender` may move on its behalf to `value`.
    pub open spec fn approve(self, owner: AccountId, spender: AccountId, value: Balance) -> LedgerState {
        LedgerState { allowances: self.allowances.insert((owner, spender), value as nat), ..self }
    }

    /// Why a call of `spender` to move `value` out of what `from` holds is refused, if it
    /// is. The balance is looked at before the allowance.
    pub open spec fn transfer_from_refusal(
        self,
        spender: AccountId,
        from: AccountId,
        value: Balance,
    ) -> Option<LedgerError> {
        if self.balance_of(from) < value {
            Some(LedgerError::InsufficientBalance)
        } else if self.allowance(from, spender) < value {
            Some(LedgerError::InsufficientAllowance)
        } else {
            None
        }
    }

    /// The state after `spender` moved `value` from `from` to `to`: the transfer, and
    /// `value` less left for `spender` to move on behalf of `from`.
    pub open spec fn transfer_from(
        self,
        spender: AccountId,
        from: AccountId,
        to: AccountId,
        value: Balance,
    ) -> LedgerState {
        let moved = self.transfer(from, to, value);
        LedgerState {
            allowances: moved.allowances.insert(
                (from, spender),
                (self.allowance(from, spender) - value) as nat,
            ),
            ..moved
        }
    }

    /// Why `call` is refused, if it is.
    pub open spec fn refusal(self, call: Call) -> Option<LedgerError> {
        match call {
            Call::Mint { caller, to, value } => self.mint_refusal(caller, value),
            Call::Burn { caller, value } => self.burn_refusal(caller, value),
            Call::Transfer { caller, to, value } => self.transfer_refusal(caller, value),
            Call::Approve { caller, spender, value } => None,
            Call::TransferFrom { caller, from, to, value } => self.transfer_from_refusal(
                caller,
                from,
                value,
            ),
        }
    }

    /// The state after `call`, where it is not refused.
    pub open spec fn effect(self, call: Call) -> LedgerState {
        match call {
            Call::Mint { caller, to, value } => self.mint(to, value),
            Call::Burn { caller, value } => self.burn(caller, value),
            Call::Transfer { caller, to, value } => self.transfer(caller, to, value),
            Call::Approve { caller, spender, value } => self.approve(caller, spender, value),
            Call::TransferFrom { caller, from, to, value } => self.transfer_from(
                caller,
                from,
                to,
                value,
            ),
        }
    }

    /// The state after `call`: a refused call changes nothing.
    pub open spec fn step(self, call: Call) -> LedgerState {
        if self.refusal(call) is None {
            self.effect(call)
        } else {
            self
        }
    }

    /// The state after the calls of `calls`, one after the other.
    pub open spec fn run(self, calls: Seq<Call>) -> LedgerState
        decreases calls.len(),
    {
        if calls.len() == 0 {
            self
        } else {
            self.run(calls.drop_last()).step(calls.last())
        }
    }
}

} // verus!
