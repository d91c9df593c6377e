//! The primitive types shared by both stores.

use vstd::prelude::*;

verus! {

/// The name of an account. Two names denote the same account exactly when
/// they hold the same characters, so contracts speak of a name by its view.
pub type AccountId = String;

/// The amount held by an account.
pub type Balance = u128;

/// The height of the chain.
pub type BlockNumber = u32;

/// The number of transactions an account has made.
pub type Nonce = u32;

} // verus!
