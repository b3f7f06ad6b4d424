//! The runtime: one ledger and one sequencer, and the unit of work that
//! advances the sequencer and then attempts a transfer.

use crate::balances::{after_transfer, balance_in, credit_fits, transfer_outcome};
use crate::balances::{AccountId, Balance, Balances, ErrorKind};
use crate::system::{System, SystemView};
use vstd::prelude::*;

verus! {

/// One transfer that a caller asks the runtime to attempt.
pub struct Attempt {
    pub from: AccountId,
    pub to: AccountId,
    pub amount: Balance,
}

/// The runtime's state: what the sequencer has counted and what the ledger
/// holds.
pub struct RuntimeView {
    pub system: SystemView,
    pub balances: Map<AccountId, Balance>,
}

impl RuntimeView {
    /// The state of a runtime that has seen nothing: no block, no nonce, no
    /// account.
    pub open spec fn initial() -> RuntimeView {
        RuntimeView { system: SystemView::initial(), balances: Map::empty() }
    }

    /// The state after one attempted transfer. The block and the sender's
    /// nonce advance whether the ledger accepts the transfer or not.
    pub open spec fn after_attempt(
        self,
        from: AccountId,
        to: AccountId,
        amount: Balance,
    ) -> RuntimeView {
        RuntimeView {
            system: self.system.next_block().next_nonce(from),
            balances: after_transfer(self.balances, from, to, amount),
        }
    }

    /// Whether one more attempt keeps both counters and the receiver's
    /// balance within their widths.
    pub open spec fn within_limits(self, from: AccountId, to: AccountId, amount: Balance) -> bool {
        &&& self.system.block_number < u32::MAX
        &&& self.system.nonce_of(from) < u32::MAX
        &&& credit_fits(self.balances, from, to, amount)
    }

    /// The state after `attempts` were made one after another, first to last.
    pub open spec fn after_all(self, attempts: Seq<Attempt>) -> RuntimeView
        decreases attempts.len(),
    {
        if attempts.len() == 0 {
            self
        } else {
            let last = attempts.last();
            self.after_all(attempts.drop_last()).after_attempt(last.from, last.to, last.amount)
        }
    }
}

/// How many of `attempts` have `account` as their sender.
pub open spec fn attempts_sent_by(attempts: Seq<Attempt>, account: AccountId) -> nat
    decreases attempts.len(),
{
    if attempts.len() == 0 {
        0
    } else if attempts.last().from == account {
        attempts_sent_by(attempts.drop_last(), account) + 1
    } else {
        attempts_sent_by(attempts.drop_last(), account)
    }
}

/// Monotonic sequencing: after any series of attempts, accepted or refused,
/// the block counter has grown by the number of attempts, and the nonce of
/// each account by the number of attempts that it sent.
pub proof fn lemma_sequencing_counts_attempts(
    state: RuntimeView,
    attempts: Seq<Attempt>,
    account: AccountId,
)
    ensures
        state.after_all(attempts).system.block_number == state.system.block_number
            + attempts.len(),
        state.after_all(attempts).system.nonce_of(account) == state.system.nonce_of(account)
            + attempts_sent_by(attempts, account),
    decreases attempts.len(),
{
    if attempts.len() > 0 {
        lemma_sequencing_counts_attempts(state, attempts.drop_last(), account);
    }
}

/// A series of attempts never adds or removes an account of the ledger.
pub proof fn lemma_attempts_keep_accounts(state: RuntimeView, attempts: Seq<Attempt>)
    ensures
        state.after_all(attempts).balances.dom() == state.balances.dom(),
    decreases attempts.len(),
{
    if attempts.len() > 0 {
        let before = state.after_all(attempts.drop_last());
        let last = attempts.last();
        lemma_attempts_keep_accounts(state, attempts.drop_last());
        crate::balances::lemma_transfer_keeps_accounts(
            before.balances,
            last.from,
            last.to,
            last.amount,
        );
    }
}

/// Zero default under sequencing: an account that the ledger does not hold
/// shows a balance of zero after any series of attempts, whether it was
/// named in them as sender, as receiver or not at all.
pub proof fn lemma_unadded_stays_zero(
    state: RuntimeView,
    attempts: Seq<Attempt>,
    account: AccountId,
)
    requires
        !state.balances.contains_key(account),
    ensures
        !state.after_all(attempts).balances.contains_key(account),
        balance_in(state.after_all(attempts).balances, account) == 0,
{
    lemma_attempts_keep_accounts(state, attempts);
}

/// The runtime. It owns its sequencer and its ledger.
#[derive(Debug)]
pub struct Runtime {
    pub system: System,
    pub balances: Balances,
}

impl View for Runtime {
    type V = RuntimeView;

    open spec fn view(&self) -> RuntimeView {
        RuntimeView { system: self.system@, balances: self.balances@ }
    }
}

impl Runtime {
    /// A runtime with an empty ledger and a sequencer that has counted
    /// nothing.
    pub fn new() -> (runtime: Self)
        ensures
            runtime@ == RuntimeView::initial(),
    {
        Self { system: System::new(), balances: Balances::new() }
    }

    /// Processes one transfer attempt: counts a block, counts the attempt on
    /// the sender's nonce, then asks the ledger to transfer, and hands the
    /// ledger's answer to the caller. A refused transfer is counted like an
    /// accepted one. Both counters and the receiver's balance have to stay
    /// within their widths.
    pub fn simulate_transaction(
        &mut self,
        from: AccountId,
        to: AccountId,
        amount: Balance,
    ) -> (outcome: Result<(), ErrorKind>)
        requires
            old(self)@.within_limits(from, to, amount),
        ensures
            outcome == transfer_outcome(old(self)@.balances, from, to, amount),
            final(self)@ == old(self)@.after_attempt(from, to, amount),
            final(self)@.system.block_number == old(self)@.system.block_number + 1,
            final(self)@.system.nonce_of(from) == old(self)@.system.nonce_of(from) + 1,
            forall|other: AccountId|
                other != from ==> #[trigger] final(self)@.system.nonce_of(other) == old(
                    self,
                )@.system.nonce_of(other),
            outcome.is_err() ==> final(self)@.balances == old(self)@.balances,
    {
        self.system.increment_block();
        self.system.increment_nonce(from);
        self.balances.transfer(from, to, amount)
    }
}

} // verus!
