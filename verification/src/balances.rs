//! The ledger: the authoritative store of account balances, and the transfer
//! engine that moves value between two accounts.

use std::collections::BTreeMap;
use vstd::prelude::*;

verus! {

/// A numeric handle that identifies an account.
pub type AccountId = u64;

/// An amount of value. The width bounds every balance at `u128::MAX`.
pub type Balance = u128;

/// Why a transfer was refused. Every refusal leaves the ledger as it was.
#[derive(Clone, Copy, Debug, PartialEq, Eq, Structural)]
pub enum ErrorKind {
    /// The sending account has no ledger entry.
    SenderNotFound,
    /// The receiving account has no ledger entry.
    ReceiverNotFound,
    /// The sender holds strictly less than the requested amount.
    InsufficientFunds,
}

impl ErrorKind {
    /// The sentence that tells a reader of this refusal.
    pub fn message(&self) -> (text: String)
        ensures
            text@ == match *self {
                ErrorKind::SenderNotFound => "Sender not found."@,
                ErrorKind::ReceiverNotFound => "Receiver not found."@,
                ErrorKind::InsufficientFunds => "Insufficient funds."@,
            },
    {
        match self {
            ErrorKind::SenderNotFound => "Sender not found.".to_string(),
            ErrorKind::ReceiverNotFound => "Receiver not found.".to_string(),
            ErrorKind::InsufficientFunds => "Insufficient funds.".to_string(),
        }
    }
}

/// What a transfer of `amount` from `from` to `to` reports on the ledger `m`.
/// The sender is looked up first, then its funds, then the receiver.
pub open spec fn transfer_outcome(
    m: Map<AccountId, Balance>,
    from: AccountId,
    to: AccountId,
    amount: Balance,
) -> Result<(), ErrorKind> {
    if !m.contains_key(from) {
        Err(ErrorKind::SenderNotFound)
    } else if m[from] < amount {
        Err(ErrorKind::InsufficientFunds)
    } else if !m.contains_key(to) {
        Err(ErrorKind::ReceiverNotFound)
    } else {
        Ok(())
    }
}

/// The balance that the ledger `m` shows for `id`: the stored one, or zero
/// for an account that was never added.
pub open spec fn balance_in(m: Map<AccountId, Balance>, id: AccountId) -> Balance {
    if m.contains_key(id) {
        m[id]
    } else {
        0
    }
}

/// Whether crediting `amount` to `to` stays within the width of `Balance`.
/// A transfer that is refused, or that returns to its own sender, credits
/// nothing beyond what it debited and always fits.
pub open spec fn credit_fits(
    m: Map<AccountId, Balance>,
    from: AccountId,
    to: AccountId,
    amount: Balance,
) -> bool {
    transfer_outcome(m, from, to, amount).is_ok() && from != to ==> m[to] + amount <= u128::MAX
}

/// The ledger `m` after a transfer of `amount` from `from` to `to` was
/// attempted on it. A refused transfer changes nothing. An accepted one
/// debits the sender and then credits the receiver, so that a transfer to
/// oneself takes the amount and gives it back.
pub open spec fn after_transfer(
    m: Map<AccountId, Balance>,
    from: AccountId,
    to: AccountId,
    amount: Balance,
) -> Map<AccountId, Balance> {
    if transfer_outcome(m, from, to, amount).is_ok() {
        let debited = m.insert(from, (m[from] - amount) as Balance);
        debited.insert(to, (debited[to] + amount) as Balance)
    } else {
        m
    }
}

/// A transfer never adds or removes an account: the ledger holds the same
/// accounts after it, whether it was accepted or refused.
pub proof fn lemma_transfer_keeps_accounts(
    m: Map<AccountId, Balance>,
    from: AccountId,
    to: AccountId,
    amount: Balance,
)
    ensures
        after_transfer(m, from, to, amount).dom() == m.dom(),
{
    assert(after_transfer(m, from, to, amount).dom() =~= m.dom());
}

/// Conservation: an accepted transfer leaves the sum of the sender's and the
/// receiver's balance as it was, and a refused one leaves every balance as
/// it was.
pub proof fn lemma_transfer_conserves(
    m: Map<AccountId, Balance>,
    from: AccountId,
    to: AccountId,
    amount: Balance,
)
    requires
        credit_fits(m, from, to, amount),
    ensures
        balance_in(after_transfer(m, from, to, amount), from) + balance_in(
            after_transfer(m, from, to, amount),
            to,
        ) == balance_in(m, from) + balance_in(m, to),
        transfer_outcome(m, from, to, amount).is_err() ==> after_transfer(m, from, to, amount) == m,
{
}

/// An accepted transfer between two different accounts takes exactly
/// `amount` from the sender, gives exactly `amount` to the receiver, and
/// touches no third account.
pub proof fn lemma_transfer_moves_amount(
    m: Map<AccountId, Balance>,
    from: AccountId,
    to: AccountId,
    amount: Balance,
)
    requires
        credit_fits(m, from, to, amount),
        transfer_outcome(m, from, to, amount).is_ok(),
        from != to,
    ensures
        balance_in(after_transfer(m, from, to, amount), from) == balance_in(m, from) - amount,
        balance_in(after_transfer(m, from, to, amount), to) == balance_in(m, to) + amount,
        forall|id: AccountId|
            id != from && id != to ==> #[trigger] balance_in(
                after_transfer(m, from, to, amount),
                id,
            ) == balance_in(m, id),
{
}

/// Zero default: an account that was never added shows a balance of zero,
/// on a fresh ledger and after any further account is added.
pub proof fn lemma_unadded_is_zero(
    m: Map<AccountId, Balance>,
    id: AccountId,
    other: AccountId,
    balance: Balance,
)
    ensures
        balance_in(Map::<AccountId, Balance>::empty(), id) == 0,
        !m.contains_key(id) ==> balance_in(m, id) == 0,
        !m.contains_key(id) && other != id ==> balance_in(m.insert(other, balance), id) == 0,
{
}

/// Sender gating: a transfer from an account that was never added is
/// refused for want of a sender, whatever the receiver and the amount, and
/// changes nothing.
pub proof fn lemma_unknown_sender_refused(
    m: Map<AccountId, Balance>,
    from: AccountId,
    to: AccountId,
    amount: Balance,
)
    requires
        !m.contains_key(from),
    ensures
        transfer_outcome(m, from, to, amount) == Err::<(), ErrorKind>(ErrorKind::SenderNotFound),
        after_transfer(m, from, to, amount) == m,
{
}

/// Sufficiency gating, the refusal: asking for more than the sender holds
/// is refused for want of funds and changes nothing.
pub proof fn lemma_overdraft_refused(
    m: Map<AccountId, Balance>,
    from: AccountId,
    to: AccountId,
    amount: Balance,
)
    requires
        m.contains_key(from),
        amount > m[from],
    ensures
        transfer_outcome(m, from, to, amount) == Err::<(), ErrorKind>(
            ErrorKind::InsufficientFunds,
        ),
        after_transfer(m, from, to, amount) == m,
{
}

/// Sufficiency gating, the limit: sending the sender's whole balance to an
/// account that exists is accepted and leaves the sender at zero. An account
/// that sends its whole balance to itself keeps it, so that case is left out
/// unless the balance is zero.
pub proof fn lemma_full_balance_accepted(
    m: Map<AccountId, Balance>,
    from: AccountId,
    to: AccountId,
)
    requires
        m.contains_key(from),
        m.contains_key(to),
        from == to ==> m[from] == 0,
        credit_fits(m, from, to, m[from]),
    ensures
        transfer_outcome(m, from, to, m[from]).is_ok(),
        balance_in(after_transfer(m, from, to, m[from]), from) == 0,
        balance_in(after_transfer(m, from, to, m[from]), to) == m[to] + m[from],
{
}

/// Self-transfer: an account that sends itself an amount it holds is
/// accepted, and the ledger is left exactly as it was.
pub proof fn lemma_self_transfer_unchanged(
    m: Map<AccountId, Balance>,
    account: AccountId,
    amount: Balance,
)
    requires
        m.contains_key(account),
        amount <= m[account],
    ensures
        transfer_outcome(m, account, account, amount).is_ok(),
        credit_fits(m, account, account, amount),
        after_transfer(m, account, account, amount) == m,
{
    assert(after_transfer(m, account, account, amount) =~= m);
}

/// The account ledger.
#[derive(Debug)]
pub struct Balances {
    pub balances: BTreeMap<AccountId, Balance>,
}

impl View for Balances {
    type V = Map<AccountId, Balance>;

    open spec fn view(&self) -> Map<AccountId, Balance> {
        self.balances@
    }
}

impl Balances {
    /// An empty ledger.
    pub fn new() -> (ledger: Self)
        ensures
            ledger@ == Map::<AccountId, Balance>::empty(),
    {
        Self { balances: BTreeMap::new() }
    }

    /// Adds `account` with `initial_balance`, or overwrites its balance if it
    /// is already there.
    pub fn add_user(&mut self, account: AccountId, initial_balance: Balance)
        ensures
            final(self)@ == old(self)@.insert(account, initial_balance),
    {
        self.balances.insert(account, initial_balance);
    }

    /// The balance of `account`; zero for an account that was never added.
    pub fn get_balance(&self, account: &AccountId) -> (balance: Balance)
        ensures
            balance == balance_in(self@, *account),
            !self@.contains_key(*account) ==> balance == 0,
    {
        match self.balances.get(account) {
            Some(balance) => *balance,
            None => 0,
        }
    }

    /// Moves `amount` from `from` to `to`. Either the whole transfer happens
    /// or the ledger stays as it was. Where the transfer would be accepted,
    /// the receiver's new balance has to fit the width of `Balance`.
    pub fn transfer(&mut self, from: AccountId, to: AccountId, amount: Balance) -> (outcome: Result<
        (),
        ErrorKind,
    >)
        requires
            credit_fits(old(self)@, from, to, amount),
        ensures
            outcome == transfer_outcome(old(self)@, from, to, amount),
            final(self)@ == after_transfer(old(self)@, from, to, amount),
            outcome.is_err() ==> final(self)@ == old(self)@,
    {
        let from_balance: Balance = match self.balances.get(&from) {
            Some(balance) => *balance,
            None => { return Err(ErrorKind::SenderNotFound); },
        };
        if from_balance < amount {
            return Err(ErrorKind::InsufficientFunds);
        }
        let to_balance: Balance = match self.balances.get(&to) {
            Some(balance) => *balance,
            None => { return Err(ErrorKind::ReceiverNotFound); },
        };
        if from != to {
            self.balances.insert(from, from_balance - amount);
            self.balances.insert(to, to_balance + amount);
        }
        assert(self@ =~= after_transfer(old(self)@, from, to, amount));
        Ok(())
    }
}

} // verus!
