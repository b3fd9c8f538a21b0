//! The ledger: the state that a host keeps, and the operations that it calls on it.

use crate::account::AccountId;
use crate::error::LedgerError;
use crate::events::{Approval, Event, Transfer};
use crate::laws::{
    lemma_approve, lemma_burn, lemma_genesis_valid, lemma_mint, lemma_transfer,
    lemma_transfer_from,
};
use crate::model::{Call, LedgerState};
use crate::store::Store;
use crate::total::{lemma_total_bounds_each, lemma_total_insert, total};
use crate::Balance;
use vstd::prelude::*;

verus! {

/// A mintable and burnable token: only the minter mints, and every account can burn what
/// it holds.
///
/// The host that owns the ledger tells each operation which account calls it, and gets
/// back either the notifications to send, in order, or the reason for which the call was
/// refused. A refused call leaves the ledger as it was. Each operation is one step of the
/// state machine of [`LedgerState`].
pub struct Mintable {
    name: String,
    minter: AccountId,
    total_supply: Balance,
    balances: Store<AccountId>,
    allowances: Store<(AccountId, AccountId)>,
}

impl View for Mintable {
    type V = LedgerState;

    closed spec fn view(&self) -> LedgerState {
        LedgerState {
            name: self.name@,
            minter: self.minter,
            total_supply: self.total_supply as nat,
            balances: self.balances@,
            allowances: self.allowances@,
        }
    }
}

impl Mintable {
    /// The two stores are valid stores.
    pub closed spec fn well_formed(&self) -> bool {
        &&& self.balances.inv()
        &&& self.allowances.inv()
    }

    /// Validity. Every ledger that `new` returns is valid, and every operation keeps it so:
    /// the total supply is at all times the sum of what all accounts hold.
    pub open spec fn inv(&self) -> bool {
        &&& self.well_formed()
        &&& self@.valid()
    }

    /// Creates the ledger on behalf of `caller`, who becomes its minter. Nothing is in
    /// supply; `caller` gets an entry of zero, and the one notification is the transfer of
    /// zero tokens to `caller` that marks the creation.
    pub fn new(caller: AccountId, name: String) -> (made: (Mintable, Vec<Event>))
        ensures
            made.0.inv(),
            made.0@ == LedgerState::genesis(name@, caller),
            made.1@ == seq![Event::transfer(None, Some(caller), 0)],
    {
        let mut balances: Store<AccountId> = Store::new();
        balances.insert(caller, 0);
        let ledger = Mintable {
            name,
            minter: caller,
            total_supply: 0,
            balances,
            allowances: Store::new(),
        };
        let mut events: Vec<Event> = Vec::new();
        events.push(Event::Transfer(Transfer { from: None, to: Some(caller), value: 0 }));
        proof {
            assert(ledger@ == LedgerState::genesis(name@, caller));
            lemma_genesis_valid(name@, caller);
        }
        (ledger, events)
    }

    /// Mints `value` new tokens to `to`, for `caller`. Only the minter may, and the total
    /// supply must stay within what a `Balance` can hold.
    pub fn mint(&mut self, caller: AccountId, to: AccountId, value: Balance) -> (r: Result<
        Vec<Event>,
        LedgerError,
    >)
        requires
            old(self).inv(),
        ensures
            final(self).inv(),
            match r {
                Ok(events) => {
                    &&& old(self)@.mint_refusal(caller, value) is None
                    &&& final(self)@ == old(self)@.mint(to, value)
                    &&& events@ == seq![Event::transfer(None, Some(to), value)]
                },
                Err(e) => {
                    &&& old(self)@.mint_refusal(caller, value) == Some(e)
                    &&& final(self)@ == old(self)@
                },
            },
            caller != old(self)@.minter ==> r == Err::<Vec<Event>, LedgerError>(
                LedgerError::Unauthorized,
            ),
            final(self)@ == old(self)@.step((Call::Mint { caller, to, value })),
    {
        if caller != self.minter {
            return Err(LedgerError::Unauthorized);
        }
        let to_balance = self.balances.get_or_zero(&to);
        proof {
            lemma_total_bounds_each(self@.balances, to);
        }
        let new_supply = match self.total_supply.checked_add(value) {
            Some(sum) => sum,
            None => {
                return Err(LedgerError::ArithmeticOverflow);
            },
        };
        self.balances.insert(to, to_balance + value);
        self.total_supply = new_supply;
        proof {
            assert(self@ == old(self)@.mint(to, value));
            lemma_mint(old(self)@, to, value, to);
        }
        let mut events: Vec<Event> = Vec::new();
        events.push(Event::Transfer(Transfer { from: None, to: Some(to), value }));
        Ok(events)
    }

    /// Burns `value` of the tokens that `caller` holds.
    pub fn burn(&mut self, caller: AccountId, value: Balance) -> (r: Result<
        Vec<Event>,
        LedgerError,
    >)
        requires
            old(self).inv(),
        ensures
            final(self).inv(),
            match r {
                Ok(events) => {
                    &&& old(self)@.burn_refusal(caller, value) is None
                    &&& final(self)@ == old(self)@.burn(caller, value)
                    &&& events@ == seq![Event::transfer(Some(caller), None, value)]
                },
                Err(e) => {
                    &&& old(self)@.burn_refusal(caller, value) == Some(e)
                    &&& final(self)@ == old(self)@
                },
            },
            value > old(self)@.balance_of(caller) ==> r == Err::<Vec<Event>, LedgerError>(
                LedgerError::InsufficientBalance,
            ),
            final(self)@ == old(self)@.step((Call::Burn { caller, value })),
    {
        let from_balance = self.balances.get_or_zero(&caller);
        if from_balance < value {
            return Err(LedgerError::InsufficientBalance);
        }
        proof {
            lemma_total_bounds_each(self@.balances, caller);
        }
        self.balances.insert(caller, from_balance - value);
        self.total_supply = self.total_supply - value;
        proof {
            assert(self@ == old(self)@.burn(caller, value));
            lemma_burn(old(self)@, caller, value, caller);
        }
        let mut events: Vec<Event> = Vec::new();
        events.push(Event::Transfer(Transfer { from: Some(caller), to: None, value }));
        Ok(events)
    }

    /// Moves `value` of the tokens that `caller` holds to `to`.
    pub fn transfer(&mut self, caller: AccountId, to: AccountId, value: Balance) -> (r: Result<
        Vec<Event>,
        LedgerError,
    >)
        requires
            old(self).inv(),
        ensures
            final(self).inv(),
            match r {
                Ok(events) => {
                    &&& old(self)@.transfer_refusal(caller, value) is None
                    &&& final(self)@ == old(self)@.transfer(caller, to, value)
                    &&& events@ == seq![Event::transfer(Some(caller), Some(to), value)]
                },
                Err(e) => {
                    &&& old(self)@.transfer_refusal(caller, value) == Some(e)
                    &&& final(self)@ == old(self)@
                },
            },
            final(self)@ == old(self)@.step((Call::Transfer { caller, to, value })),
    {
        if self.balances.get_or_zero(&caller) < value {
            return Err(LedgerError::InsufficientBalance);
        }
        self.move_balance(caller, to, value);
        let mut events: Vec<Event> = Vec::new();
        events.push(Event::Transfer(Transfer { from: Some(caller), to: Some(to), value }));
        Ok(events)
    }

    /// Sets what `spender` may move on behalf of `caller` to `value`, whatever it was
    /// before. This is never refused.
    pub fn approve(&mut self, caller: AccountId, spender: AccountId, value: Balance) -> (r: Result<
        Vec<Event>,
        LedgerError,
    >)
        requires
            old(self).inv(),
        ensures
            final(self).inv(),
            final(self)@ == old(self)@.approve(caller, spender, value),
            r is Ok,
            r->Ok_0@ == seq![Event::approval(caller, spender, value)],
            final(self)@ == old(self)@.step((Call::Approve { caller, spender, value })),
    {
        self.allowances.insert((caller, spender), value);
        proof {
            assert(self@ == old(self)@.approve(caller, spender, value));
            lemma_approve(old(self)@, caller, spender, value, caller, spender);
        }
        let mut events: Vec<Event> = Vec::new();
        events.push(Event::Approval(Approval { owner: caller, spender, value }));
        Ok(events)
    }

    /// Moves `value` of the tokens that `from` holds to `to`, for `caller`, who may
    /// afterwards move `value` less on behalf of `from`.
    pub fn transfer_from(
        &mut self,
        caller: AccountId,
        from: AccountId,
        to: AccountId,
        value: Balance,
    ) -> (r: Result<Vec<Event>, LedgerError>)
        requires
            old(self).inv(),
        ensures
            final(self).inv(),
            match r {
                Ok(events) => {
                    &&& old(self)@.transfer_from_refusal(caller, from, value) is None
                    &&& final(self)@ == old(self)@.transfer_from(caller, from, to, value)
                    &&& events@ == seq![
                        Event::transfer(Some(from), Some(to), value),
                        Event::approval(
                            from,
                            caller,
                            (old(self)@.allowance(from, caller) - value) as Balance,
                        ),
                    ]
                },
                Err(e) => {
                    &&& old(self)@.transfer_from_refusal(caller, from, value) == Some(e)
                    &&& final(self)@ == old(self)@
                },
            },
            r is Ok ==> final(self)@.allowance(from, caller) == old(self)@.allowance(from, caller)
                - value,
            forall|owner: AccountId, spender: AccountId|
                (owner, spender) != (from, caller) ==> #[trigger] final(self)@.allowance(
                    owner,
                    spender,
                ) == old(self)@.allowance(owner, spender),
            final(self)@ == old(self)@.step((Call::TransferFrom { caller, from, to, value })),
    {
        if self.balances.get_or_zero(&from) < value {
            return Err(LedgerError::InsufficientBalance);
        }
        let allowance = self.allowances.get_or_zero(&(from, caller));
        if allowance < value {
            return Err(LedgerError::InsufficientAllowance);
        }
        self.move_balance(from, to, value);
        self.allowances.insert((from, caller), allowance - value);
        proof {
            assert(self@ == old(self)@.transfer_from(caller, from, to, value));
            lemma_transfer_from(old(self)@, caller, from, to, value, from, caller);
        }
        let mut events: Vec<Event> = Vec::new();
        events.push(Event::Transfer(Transfer { from: Some(from), to: Some(to), value }));
        events.push(
            Event::Approval(Approval { owner: from, spender: caller, value: allowance - value }),
        );
        Ok(events)
    }

    /// The display name.
    pub fn name(&self) -> (name: String)
        ensures
            name@ == self@.name,
    {
        self.name.clone()
    }

    /// The account that may mint.
    pub fn minter(&self) -> (minter: AccountId)
        ensures
            minter == self@.minter,
    {
        self.minter
    }

    /// The amount of tokens in existence: in a valid ledger, the sum of what all accounts
    /// hold.
    pub fn total_supply(&self) -> (supply: Balance)
        ensures
            supply == self@.total_supply,
            self.inv() ==> supply == total(self@.balances),
    {
        self.total_supply
    }

    /// What `owner` holds: zero for an account that the ledger has no entry for.
    pub fn balance_of(&self, owner: AccountId) -> (balance: Balance)
        requires
            self.inv(),
        ensures
            balance == self@.balance_of(owner),
    {
        self.balances.get_or_zero(&owner)
    }

    /// What `spender` may still move on behalf of `owner`: zero where `owner` never
    /// approved `spender`.
    pub fn allowance(&self, owner: AccountId, spender: AccountId) -> (allowance: Balance)
        requires
            self.inv(),
        ensures
            allowance == self@.allowance(owner, spender),
    {
        self.allowances.get_or_zero(&(owner, spender))
    }

    /// Takes `value` from what `from` holds and gives it to `to`.
    fn move_balance(&mut self, from: AccountId, to: AccountId, value: Balance)
        requires
            old(self).inv(),
            old(self)@.balance_of(from) >= value,
        ensures
            final(self).inv(),
            final(self)@ == old(self)@.transfer(from, to, value),
    {
        let from_balance = self.balances.get_or_zero(&from);
        self.balances.insert(from, from_balance - value);
        let to_balance = self.balances.get_or_zero(&to);
        proof {
            lemma_total_insert(old(self)@.balances, from, (from_balance - value) as nat);
            lemma_total_bounds_each(self@.balances, to);
        }
        self.balances.insert(to, to_balance + value);
        proof {
            assert(self@ == old(self)@.transfer(from, to, value));
            lemma_transfer(old(self)@, from, to, value, from);
        }
    }
}

} // verus!
