//! A mintable, burnable fungible-token ledger with delegated spending.
//!
//! [`Mintable`] is the ledger that a host keeps. [`model::LedgerState`] is the same
//! ledger as a mathematical state, over which the contracts of the operations and the
//! laws of [`laws`] are stated.

use vstd::prelude::*;

pub mod account;
pub mod error;
pub mod events;
pub mod laws;
pub mod ledger;
pub mod model;
pub mod store;
pub mod total;

pub use crate::account::AccountId;
pub use crate::error::LedgerError;
pub use crate::events::{Approval, Event, Transfer};
pub use crate::ledger::Mintable;

verus! {

/// A non-negative amount of the token.
pub type Balance = u128;

} // verus!
