//! The chain-metadata store: the height of the chain and, for each account,
//! the number of transactions it has made.

use vstd::prelude::*;
use vstd::hash_map::StringHashMap;
use crate::numeric::{one_u32, zero_u32};
use crate::types::{AccountId, BlockNumber, Nonce};

verus! {

/// The chain metadata as a mathematical object: a height and a counter per
/// account, both unbounded. Accounts that never made a transaction have no
/// entry in `nonces`.
pub struct ChainState {
    pub block_number: nat,
    pub nonces: Map<Seq<char>, nat>,
}

impl ChainState {
    /// The state before the first block: height zero and no counters.
    pub open spec fn genesis() -> ChainState {
        ChainState { block_number: 0, nonces: Map::empty() }
    }

    /// The counter of `who`: the stored number, or zero for an account with
    /// no entry. An absent entry and a stored zero are the same counter.
    pub open spec fn nonce_of(self, who: Seq<char>) -> nat {
        if self.nonces.contains_key(who) {
            self.nonces[who]
        } else {
            0
        }
    }

    /// The state one block later: the height raised by one, the counters
    /// untouched.
    pub open spec fn next_block(self) -> ChainState {
        ChainState { block_number: self.block_number + 1, nonces: self.nonces }
    }

    /// The state after one more transaction of `who`: the counter of `who`
    /// raised by one, everything else untouched.
    pub open spec fn bump_nonce(self, who: Seq<char>) -> ChainState {
        ChainState {
            block_number: self.block_number,
            nonces: self.nonces.insert(who, self.nonce_of(who) + 1),
        }
    }

    /// The state `n` blocks later.
    pub open spec fn after_blocks(self, n: nat) -> ChainState
        decreases n,
    {
        if n == 0 {
            self
        } else {
            self.after_blocks((n - 1) as nat).next_block()
        }
    }

    /// The state after `n` more transactions of `who`.
    pub open spec fn after_bumps(self, who: Seq<char>, n: nat) -> ChainState
        decreases n,
    {
        if n == 0 {
            self
        } else {
            self.after_bumps(who, (n - 1) as nat).bump_nonce(who)
        }
    }
}

/// The chain-metadata store. Its view is the `ChainState` it stands for.
pub struct Pallet {
    block_number: BlockNumber,
    nonce: StringHashMap<Nonce>,
}

impl View for Pallet {
    type V = ChainState;

    closed spec fn view(&self) -> ChainState {
        ChainState {
            block_number: self.block_number as nat,
            nonces: Map::new(
                |who: Seq<char>| self.nonce@.contains_key(who),
                |who: Seq<char>| self.nonce@[who] as nat,
            ),
        }
    }
}

impl Pallet {
    /// Creates a store at height zero in which no account has made a
    /// transaction.
    pub fn new() -> (pallet: Self)
        ensures
            pallet@ == ChainState::genesis(),
            pallet@.block_number == 0,
            forall|who: Seq<char>| #[trigger] pallet@.nonce_of(who) == 0,
    {
        let pallet = Self { block_number: zero_u32(), nonce: StringHashMap::new() };
        proof {
            assert(pallet@.nonces =~= Map::<Seq<char>, nat>::empty());
        }
        pallet
    }

    /// The current height of the chain.
    pub fn block_number(&self) -> (height: BlockNumber)
        ensures
            height == self@.block_number,
    {
        self.block_number
    }

    /// Raises the height by one.
    pub fn inc_block_number(&mut self)
        requires
            old(self)@.block_number < BlockNumber::MAX,
        ensures
            final(self)@ == old(self)@.next_block(),
    {
        self.block_number += one_u32();
        proof {
            assert(self@.nonces =~= old(self)@.nonces);
        }
    }

    /// The number of transactions `who` has made, which is zero for an
    /// account never seen.
    pub fn nonce(&self, who: &AccountId) -> (count: Nonce)
        ensures
            count == self@.nonce_of(who@),
    {
        match self.nonce.get(who.as_str()) {
            Some(stored) => *stored,
            None => zero_u32(),
        }
    }

    /// Raises the counter of `who` by one, starting from zero for an account
    /// never seen.
    pub fn inc_nonce(&mut self, who: &AccountId)
        requires
            old(self)@.nonce_of(who@) < Nonce::MAX,
        ensures
            final(self)@ == old(self)@.bump_nonce(who@),
    {
        let count = self.nonce(who);
        self.nonce.insert(who.clone(), count + one_u32());
        proof {
            assert(self@.nonces =~= old(self)@.bump_nonce(who@).nonces);
        }
    }
}

/// Raising the height `n` times raises it by exactly `n`, and touches no
/// counter.
pub proof fn lemma_blocks_add_up(state: ChainState, n: nat)
    ensures
        state.after_blocks(n).block_number == state.block_number + n,
        state.after_blocks(n).nonces == state.nonces,
    decreases n,
{
    if n > 0 {
        lemma_blocks_add_up(state, (n - 1) as nat);
    }
}

/// Starting from genesis, the height after `n` blocks is `n`.
pub proof fn lemma_blocks_from_genesis(n: nat)
    ensures
        ChainState::genesis().after_blocks(n).block_number == n,
{
    lemma_blocks_add_up(ChainState::genesis(), n);
}

/// Raising the counter of `who` `n` times raises it by exactly `n`, and
/// touches neither the counter of any other account nor the height.
pub proof fn lemma_bumps_add_up(state: ChainState, who: Seq<char>, n: nat)
    ensures
        state.after_bumps(who, n).nonce_of(who) == state.nonce_of(who) + n,
        forall|other: Seq<char>|
            other != who ==> #[trigger] state.after_bumps(who, n).nonce_of(other)
                == state.nonce_of(other),
        state.after_bumps(who, n).block_number == state.block_number,
    decreases n,
{
    if n > 0 {
        let before = state.after_bumps(who, (n - 1) as nat);
        lemma_bumps_add_up(state, who, (n - 1) as nat);
        assert forall|other: Seq<char>| other != who implies #[trigger] state.after_bumps(
            who,
            n,
        ).nonce_of(other) == state.nonce_of(other) by {
            assert(before.nonce_of(other) == state.nonce_of(other));
        }
    }
}

/// Starting from genesis, the counter of an account after `n` of its
/// transactions is `n`, and every other counter is still zero.
pub proof fn lemma_bumps_from_genesis(who: Seq<char>, n: nat)
    ensures
        ChainState::genesis().after_bumps(who, n).nonce_of(who) == n,
        forall|other: Seq<char>|
            other != who ==> #[trigger] ChainState::genesis().after_bumps(who, n).nonce_of(other)
                == 0,
{
    lemma_bumps_add_up(ChainState::genesis(), who, n);
}

} // verus!
