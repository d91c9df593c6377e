//! A minimal deterministic ledger state machine: a balance store and a
//! chain-metadata store, each a small verified state machine over a map from
//! account names to numbers.

pub mod types;
mod numeric;
pub mod balances;
pub mod system;

use vstd::prelude::*;
use crate::system::ChainState;
use crate::types::Balance;

verus! {

/// The whole state machine: one chain-metadata store and one balance store,
/// side by side. Neither store knows of the other; the caller decides in
/// which order to apply their operations.
pub struct Runtime {
    pub system: system::Pallet,
    pub balances: balances::Pallet,
}

impl Runtime {
    /// Creates a runtime at genesis with an empty ledger.
    pub fn new() -> (runtime: Self)
        ensures
            runtime.system@ == ChainState::genesis(),
            runtime.balances@ == Map::<Seq<char>, Balance>::empty(),
    {
        Self { system: system::Pallet::new(), balances: balances::Pallet::new() }
    }
}

} // verus!
