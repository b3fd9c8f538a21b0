//! What holds of every ledger, whatever calls it has taken.

use crate::account::AccountId;
use crate::error::LedgerError;
use crate::model::{Call, LedgerState};
use crate::total::{lemma_total_bounds_each, lemma_total_empty, lemma_total_insert};
use crate::Balance;
use vstd::prelude::*;

verus! {

/// A ledger is valid when it is created.
pub proof fn lemma_genesis_valid(name: Seq<char>, creator: AccountId)
    ensures
        LedgerState::genesis(name, creator).valid(),
{
    lemma_total_empty::<AccountId>();
    lemma_total_insert(Map::<AccountId, nat>::empty(), creator, 0);
}

/// Minting keeps a ledger valid and raises the total supply and what `to` holds by
/// `value`, where the total supply stays one that a `Balance` can hold.
pub proof fn lemma_mint(s: LedgerState, to: AccountId, value: Balance, other: AccountId)
    requires
        s.valid(),
        s.total_supply + value <= Balance::MAX,
    ensures
        s.mint(to, value).valid(),
        s.mint(to, value).total_supply == s.total_supply + value,
        s.mint(to, value).balance_of(to) == s.balance_of(to) + value,
        other != to ==> s.mint(to, value).balance_of(other) == s.balance_of(other),
{
    lemma_total_insert(s.balances, to, s.balance_of(to) + value as nat);
}

/// Burning keeps a ledger valid and lowers the total supply and what `from` holds by
/// `value`, where `from` holds that much.
pub proof fn lemma_burn(s: LedgerState, from: AccountId, value: Balance, other: AccountId)
    requires
        s.valid(),
        s.balance_of(from) >= value,
    ensures
        s.burn(from, value).valid(),
        s.burn(from, value).total_supply == s.total_supply - value,
        s.burn(from, value).balance_of(from) == s.balance_of(from) - value,
        other != from ==> s.burn(from, value).balance_of(other) == s.balance_of(other),
{
    lemma_total_bounds_each(s.balances, from);
    lemma_total_insert(s.balances, from, (s.balance_of(from) - value) as nat);
}

/// A transfer keeps a ledger valid and the total supply as it is. Between two accounts it
/// takes `value` from the one and gives it to the other; from an account to itself it
/// changes what nobody holds.
pub proof fn lemma_transfer(
    s: LedgerState,
    from: AccountId,
    to: AccountId,
    value: Balance,
    other: AccountId,
)
    requires
        s.valid(),
        s.balance_of(from) >= value,
    ensures
        s.transfer(from, to, value).valid(),
        s.transfer(from, to, value).total_supply == s.total_supply,
        from != to ==> s.transfer(from, to, value).balance_of(from) == s.balance_of(from) - value,
        from != to ==> s.transfer(from, to, value).balance_of(to) == s.balance_of(to) + value,
        from == to ==> s.transfer(from, to, value).balance_of(from) == s.balance_of(from),
        other != from && other != to ==> s.transfer(from, to, value).balance_of(other)
            == s.balance_of(other),
{
    let debited = s.debit(from, value as nat);
    lemma_total_insert(s.balances, from, (s.balance_of(from) - value) as nat);
    lemma_total_insert(debited.balances, to, debited.balance_of(to) + value as nat);
}

/// An approval keeps a ledger valid, sets the one allowance and changes no other.
pub proof fn lemma_approve(
    s: LedgerState,
    owner: AccountId,
    spender: AccountId,
    value: Balance,
    other_owner: AccountId,
    other_spender: AccountId,
)
    requires
        s.valid(),
    ensures
        s.approve(owner, spender, value).valid(),
        s.approve(owner, spender, value).allowance(owner, spender) == value,
        (other_owner, other_spender) != (owner, spender) ==> s.approve(
            owner,
            spender,
            value,
        ).allowance(other_owner, other_spender) == s.allowance(other_owner, other_spender),
{
}

/// Of two approvals for the same spender, one after the other, only the second counts.
pub proof fn lemma_approve_overwrites(
    s: LedgerState,
    owner: AccountId,
    spender: AccountId,
    first: Balance,
    second: Balance,
)
    ensures
        s.approve(owner, spender, first).approve(owner, spender, second) == s.approve(
            owner,
            spender,
            second,
        ),
        s.approve(owner, spender, first).approve(owner, spender, second).allowance(owner, spender)
            == second,
{
    assert(s.allowances.insert((owner, spender), first as nat).insert(
        (owner, spender),
        second as nat,
    ) =~= s.allowances.insert((owner, spender), second as nat));
}

/// A transfer by a spender keeps a ledger valid, moves the tokens as a transfer by their
/// owner would, lowers what the spender may still move on the owner's behalf by exactly
/// `value`, and changes no other allowance.
pub proof fn lemma_transfer_from(
    s: LedgerState,
    spender: AccountId,
    from: AccountId,
    to: AccountId,
    value: Balance,
    other_owner: AccountId,
    other_spender: AccountId,
)
    requires
        s.valid(),
        s.balance_of(from) >= value,
        s.allowance(from, spender) >= value,
    ensures
        s.transfer_from(spender, from, to, value).valid(),
        s.transfer_from(spender, from, to, value).balances == s.transfer(from, to, value).balances,
        s.transfer_from(spender, from, to, value).total_supply == s.total_supply,
        s.transfer_from(spender, from, to, value).allowance(from, spender) == s.allowance(
            from,
            spender,
        ) - value,
        (other_owner, other_spender) != (from, spender) ==> s.transfer_from(
            spender,
            from,
            to,
            value,
        ).allowance(other_owner, other_spender) == s.allowance(other_owner, other_spender),
{
    lemma_transfer(s, from, to, value, from);
}

/// Only the minter mints: a call to mint by any other account is refused as unauthorized
/// and changes nothing.
pub proof fn lemma_only_minter_mints(
    s: LedgerState,
    caller: AccountId,
    to: AccountId,
    value: Balance,
)
    requires
        caller != s.minter,
    ensures
        s.refusal((Call::Mint { caller, to, value })) == Some(LedgerError::Unauthorized),
        s.step((Call::Mint { caller, to, value })) == s,
{
}

/// Nobody burns more than they hold: such a call is refused for want of balance and
/// changes nothing.
pub proof fn lemma_burn_limited(s: LedgerState, caller: AccountId, value: Balance)
    requires
        value > s.balance_of(caller),
    ensures
        s.refusal((Call::Burn { caller, value })) == Some(LedgerError::InsufficientBalance),
        s.step((Call::Burn { caller, value })) == s,
{
}

/// No call makes a valid ledger invalid, and none changes its name or its minter.
pub proof fn lemma_step(s: LedgerState, call: Call)
    requires
        s.valid(),
    ensures
        s.step(call).valid(),
        s.step(call).name == s.name,
        s.step(call).minter == s.minter,
{
    if s.refusal(call) is None {
        match call {
            Call::Mint { caller, to, value } => {
                lemma_mint(s, to, value, to);
            },
            Call::Burn { caller, value } => {
                lemma_burn(s, caller, value, caller);
            },
            Call::Transfer { caller, to, value } => {
                lemma_transfer(s, caller, to, value, caller);
            },
            Call::Approve { caller, spender, value } => {
                lemma_approve(s, caller, spender, value, caller, spender);
            },
            Call::TransferFrom { caller, from, to, value } => {
                lemma_transfer_from(s, caller, from, to, value, from, caller);
            },
        }
    }
}

/// No sequence of calls makes a valid ledger invalid, and none changes its name or its
/// minter.
pub proof fn lemma_run(s: LedgerState, calls: Seq<Call>)
    requires
        s.valid(),
    ensures
        s.run(calls).valid(),
        s.run(calls).name == s.name,
        s.run(calls).minter == s.minter,
    decreases calls.len(),
{
    if calls.len() > 0 {
        lemma_run(s, calls.drop_last());
        lemma_step(s.run(calls.drop_last()), calls.last());
    }
}

/// Conservation: after any sequence of calls on a newly created ledger, the total supply
/// is the sum of what all accounts hold.
pub proof fn lemma_conservation(name: Seq<char>, creator: AccountId, calls: Seq<Call>)
    ensures
        LedgerState::genesis(name, creator).run(calls).conserved(),
{
    lemma_genesis_valid(name, creator);
    lemma_run(LedgerState::genesis(name, creator), calls);
}

/// After any sequence of calls on a newly created ledger, what an account holds and what
/// a spender may move are amounts from zero to the largest that a `Balance` can hold.
pub proof fn lemma_amounts_in_range(
    name: Seq<char>,
    creator: AccountId,
    calls: Seq<Call>,
    owner: AccountId,
    spender: AccountId,
)
    ensures
        0 <= LedgerState::genesis(name, creator).run(calls).balance_of(owner) <= Balance::MAX,
        0 <= LedgerState::genesis(name, creator).run(calls).allowance(owner, spender)
            <= Balance::MAX,
{
    let s = LedgerState::genesis(name, creator).run(calls);
    lemma_conservation(name, creator, calls);
    lemma_genesis_valid(name, creator);
    lemma_run(LedgerState::genesis(name, creator), calls);
    lemma_total_bounds_each(s.balances, owner);
}

} // verus!
