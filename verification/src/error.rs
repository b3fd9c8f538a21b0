//! Why the ledger refuses a call.

use vstd::prelude::*;

verus! {

/// The reason for which a call was refused. A refused call changes nothing.
#[derive(Clone, Copy, Debug, PartialEq, Eq, Hash, Structural)]
pub enum LedgerError {
    /// An account other than the minter tried to mint.
    Unauthorized,
    /// The source account holds less than the amount to burn or to move.
    InsufficientBalance,
    /// The spender may move less than the amount on the owner's behalf.
    InsufficientAllowance,
    /// The total supply would exceed the largest amount a `Balance` can hold.
    ArithmeticOverflow,
}

} // verus!
