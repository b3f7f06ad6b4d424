//! The sequencer: a block counter and one nonce per account.

use crate::balances::AccountId;
use std::collections::BTreeMap;
use vstd::prelude::*;

verus! {

/// The number of a block. The counter stops short of `u32::MAX` blocks: to
/// count one more is outside what the sequencer accepts.
pub type BlockNumber = u32;

/// How many transactions an account has initiated, up to `u32::MAX`.
pub type Nonce = u32;

/// The sequencer's state as numbers without a width.
pub struct SystemView {
    /// The blocks counted so far.
    pub block_number: nat,
    /// The nonce of each account that has initiated a transaction.
    pub nonces: Map<AccountId, nat>,
}

impl SystemView {
    /// The state before anything was counted.
    pub open spec fn initial() -> SystemView {
        SystemView { block_number: 0, nonces: Map::empty() }
    }

    /// The nonce of `account`: zero until it initiates a transaction.
    pub open spec fn nonce_of(self, account: AccountId) -> nat {
        if self.nonces.contains_key(account) {
            self.nonces[account]
        } else {
            0
        }
    }

    /// The state after one more block.
    pub open spec fn next_block(self) -> SystemView {
        SystemView { block_number: self.block_number + 1, nonces: self.nonces }
    }

    /// The state after `account` initiated one more transaction.
    pub open spec fn next_nonce(self, account: AccountId) -> SystemView {
        SystemView {
            block_number: self.block_number,
            nonces: self.nonces.insert(account, self.nonce_of(account) + 1),
        }
    }
}

/// The sequencer.
#[derive(Debug)]
pub struct System {
    pub block_number: BlockNumber,
    pub nonces: BTreeMap<AccountId, Nonce>,
}

impl View for System {
    type V = SystemView;

    open spec fn view(&self) -> SystemView {
        SystemView {
            block_number: self.block_number as nat,
            nonces: self.nonces@.map_values(|nonce: Nonce| nonce as nat),
        }
    }
}

impl System {
    /// A sequencer that has counted nothing.
    pub fn new() -> (system: Self)
        ensures
            system@ == SystemView::initial(),
    {
        let system = Self { block_number: 0, nonces: BTreeMap::new() };
        assert(system@.nonces =~= Map::<AccountId, nat>::empty());
        system
    }

    /// Counts one more block.
    pub fn increment_block(&mut self)
        requires
            old(self)@.block_number < u32::MAX,
        ensures
            final(self)@ == old(self)@.next_block(),
    {
        self.block_number = self.block_number + 1;
    }

    /// Counts one more transaction initiated by `account`, starting from
    /// zero for an account not seen before.
    pub fn increment_nonce(&mut self, account: AccountId)
        requires
            old(self)@.nonce_of(account) < u32::MAX,
        ensures
            final(self)@ == old(self)@.next_nonce(account),
    {
        let nonce: Nonce = match self.nonces.get(&account) {
            Some(nonce) => *nonce,
            None => 0,
        };
        self.nonces.insert(account, nonce + 1);
        assert(self@.nonces =~= old(self)@.next_nonce(account).nonces);
    }
}

} // verus!
