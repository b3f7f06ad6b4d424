//! The total supply: the sum of every balance that the ledger holds. Only
//! adding an account changes it; no transfer does.

use crate::balances::{after_transfer, balance_in, credit_fits, transfer_outcome};
use crate::balances::{AccountId, Balance};
use vstd::prelude::*;
use vstd::set::fold::{lemma_fold_empty, lemma_fold_insert};

verus! {

/// The step of the sum: adds the balance that `m` stores for `id`.
pub open spec fn add_balance_of(m: Map<AccountId, Balance>) -> spec_fn(int, AccountId) -> int {
    |sum: int, id: AccountId| sum + m[id]
}

/// The sum of the balances that `m` stores for the accounts in `ids`.
pub open spec fn supply_over(m: Map<AccountId, Balance>, ids: Set<AccountId>) -> int {
    ids.fold(0int, add_balance_of(m))
}

/// The sum of all balances of the ledger `m`.
pub open spec fn total_supply(m: Map<AccountId, Balance>) -> int {
    supply_over(m, m.dom())
}

/// The sum over a set is the balance of any one of its accounts plus the
/// sum over the others.
proof fn lemma_supply_take_out(m: Map<AccountId, Balance>, ids: Set<AccountId>, id: AccountId)
    requires
        ids.finite(),
        ids.contains(id),
    ensures
        supply_over(m, ids) == supply_over(m, ids.remove(id)) + m[id],
{
    assert(ids.remove(id).insert(id) =~= ids);
    lemma_fold_insert(ids.remove(id), 0int, add_balance_of(m), id);
}

/// Two ledgers that agree on every account of a set have the same sum over
/// it.
proof fn lemma_supply_agrees(
    m1: Map<AccountId, Balance>,
    m2: Map<AccountId, Balance>,
    ids: Set<AccountId>,
)
    requires
        ids.finite(),
        forall|id: AccountId| ids.contains(id) ==> m1[id] == m2[id],
    ensures
        supply_over(m1, ids) == supply_over(m2, ids),
    decreases ids.len(),
{
    if ids.len() == 0 {
        ids.lemma_len0_is_empty();
        lemma_fold_empty::<AccountId, int>(0int, add_balance_of(m1));
        lemma_fold_empty::<AccountId, int>(0int, add_balance_of(m2));
    } else {
        let id = ids.choose();
        lemma_supply_take_out(m1, ids, id);
        lemma_supply_take_out(m2, ids, id);
        lemma_supply_agrees(m1, m2, ids.remove(id));
    }
}

/// An empty ledger has a supply of zero.
pub proof fn lemma_empty_supply()
    ensures
        total_supply(Map::<AccountId, Balance>::empty()) == 0,
{
    assert(Map::<AccountId, Balance>::empty().dom() =~= Set::<AccountId>::empty());
    lemma_fold_empty::<AccountId, int>(0int, add_balance_of(Map::empty()));
}

/// Adding an account, or overwriting one, changes the supply by exactly the
/// difference between the new balance and what the account showed before.
pub proof fn lemma_add_user_changes_supply(
    m: Map<AccountId, Balance>,
    account: AccountId,
    balance: Balance,
)
    requires
        m.dom().finite(),
    ensures
        total_supply(m.insert(account, balance)) == total_supply(m) - balance_in(m, account)
            + balance,
{
    let after = m.insert(account, balance);
    let others = m.dom().remove(account);
    assert(after.dom().remove(account) =~= others);
    lemma_supply_take_out(after, after.dom(), account);
    lemma_supply_agrees(m, after, others);
    if m.contains_key(account) {
        lemma_supply_take_out(m, m.dom(), account);
    } else {
        assert(others =~= m.dom());
    }
}

/// No transfer creates or destroys value: accepted or refused, it leaves
/// the total supply as it was.
pub proof fn lemma_transfer_keeps_supply(
    m: Map<AccountId, Balance>,
    from: AccountId,
    to: AccountId,
    amount: Balance,
)
    requires
        m.dom().finite(),
        credit_fits(m, from, to, amount),
    ensures
        total_supply(after_transfer(m, from, to, amount)) == total_supply(m),
{
    let after = after_transfer(m, from, to, amount);
    assert(after.dom() =~= m.dom());
    if transfer_outcome(m, from, to, amount).is_ok() && from != to {
        let without_sender = m.dom().remove(from);
        let others = without_sender.remove(to);
        lemma_supply_take_out(m, m.dom(), from);
        lemma_supply_take_out(after, m.dom(), from);
        lemma_supply_take_out(m, without_sender, to);
        lemma_supply_take_out(after, without_sender, to);
        lemma_supply_agrees(m, after, others);
    } else {
        assert(after =~= m);
    }
}

} // verus!
