//! The total of the balances held in a ledger, and how updates change it.
use vstd::prelude::*;
use vstd::set::fold::{is_fun_commutative, lemma_fold_empty, lemma_fold_insert};
use crate::{AccountId, Balance};

verus! {

/// The step of the fold that adds up the balances of `m`.
pub open spec fn add_entry(m: Map<AccountId, Balance>) -> spec_fn(int, AccountId) -> int {
    |acc: int, k: AccountId| acc + m[k] as int
}

/// The sum of `m`'s balances over the accounts in `s`.
pub open spec fn sum_over(m: Map<AccountId, Balance>, s: Set<AccountId>) -> int {
    s.fold(0int, add_entry(m))
}

/// The sum of all balances in `m`.
pub open spec fn total(m: Map<AccountId, Balance>) -> int {
    sum_over(m, m.dom())
}

proof fn lemma_add_entry_commutative(m: Map<AccountId, Balance>)
    ensures
        is_fun_commutative(add_entry(m)),
{
}

proof fn lemma_sum_over_empty(m: Map<AccountId, Balance>)
    ensures
        sum_over(m, Set::empty()) == 0,
{
    lemma_fold_empty(0int, add_entry(m));
}

proof fn lemma_sum_over_insert(m: Map<AccountId, Balance>, s: Set<AccountId>, a: AccountId)
    requires
        s.finite(),
        !s.contains(a),
    ensures
        sum_over(m, s.insert(a)) == sum_over(m, s) + m[a],
{
    lemma_add_entry_commutative(m);
    lemma_fold_insert(s, 0int, add_entry(m), a);
}

proof fn lemma_sum_over_remove(m: Map<AccountId, Balance>, s: Set<AccountId>, a: AccountId)
    requires
        s.finite(),
        s.contains(a),
    ensures
        sum_over(m, s) == sum_over(m, s.remove(a)) + m[a],
{
    lemma_sum_over_insert(m, s.remove(a), a);
    assert(s.remove(a).insert(a) =~= s);
}

/// Two maps that agree on `s` have the same sum over `s`.
proof fn lemma_sum_over_agree(m1: Map<AccountId, Balance>, m2: Map<AccountId, Balance>, s: Set<AccountId>)
    requires
        s.finite(),
        forall|k: AccountId| s.contains(k) ==> m1[k] == m2[k],
    ensures
        sum_over(m1, s) == sum_over(m2, s),
    decreases s.len(),
{
    if s.is_empty() {
        assert(s =~= Set::empty());
        lemma_sum_over_empty(m1);
        lemma_sum_over_empty(m2);
    } else {
        let a = s.choose();
        lemma_sum_over_agree(m1, m2, s.remove(a));
        lemma_sum_over_remove(m1, s, a);
        lemma_sum_over_remove(m2, s, a);
    }
}

proof fn lemma_sum_over_nonneg(m: Map<AccountId, Balance>, s: Set<AccountId>)
    requires
        s.finite(),
    ensures
        sum_over(m, s) >= 0,
    decreases s.len(),
{
    if s.is_empty() {
        assert(s =~= Set::empty());
        lemma_sum_over_empty(m);
    } else {
        let a = s.choose();
        lemma_sum_over_nonneg(m, s.remove(a));
        lemma_sum_over_remove(m, s, a);
    }
}

/// A ledger with no accounts holds nothing.
pub proof fn lemma_total_empty()
    ensures
        total(Map::<AccountId, Balance>::empty()) == 0,
{
    assert(Map::<AccountId, Balance>::empty().dom() =~= Set::empty());
    lemma_sum_over_empty(Map::empty());
}

/// Overwriting the balance of an existing account changes the total by the difference.
pub proof fn lemma_total_update(m: Map<AccountId, Balance>, k: AccountId, v: Balance)
    requires
        m.dom().finite(),
        m.contains_key(k),
    ensures
        total(m.insert(k, v)) == total(m) - m[k] + v,
{
    let m2 = m.insert(k, v);
    assert(m2.dom() =~= m.dom());
    lemma_sum_over_remove(m, m.dom(), k);
    lemma_sum_over_remove(m2, m.dom(), k);
    lemma_sum_over_agree(m, m2, m.dom().remove(k));
}

/// Crediting a new account adds its balance to the total.
pub proof fn lemma_total_new_key(m: Map<AccountId, Balance>, k: AccountId, v: Balance)
    requires
        m.dom().finite(),
        !m.contains_key(k),
    ensures
        total(m.insert(k, v)) == total(m) + v,
{
    let m2 = m.insert(k, v);
    assert(m2.dom() =~= m.dom().insert(k));
    lemma_sum_over_insert(m2, m.dom(), k);
    lemma_sum_over_agree(m, m2, m.dom());
}

/// The balances of two distinct accounts together never exceed the total.
pub proof fn lemma_total_bounds_pair(m: Map<AccountId, Balance>, a: AccountId, b: AccountId)
    requires
        m.dom().finite(),
        m.contains_key(a),
        m.contains_key(b),
        a != b,
    ensures
        m[a] + m[b] <= total(m),
{
    lemma_sum_over_remove(m, m.dom(), a);
    lemma_sum_over_remove(m, m.dom().remove(a), b);
    lemma_sum_over_nonneg(m, m.dom().remove(a).remove(b));
}

/// The balance of one account never exceeds the total.
pub proof fn lemma_total_bounds_one(m: Map<AccountId, Balance>, a: AccountId)
    requires
        m.dom().finite(),
        m.contains_key(a),
    ensures
        m[a] <= total(m),
{
    lemma_sum_over_remove(m, m.dom(), a);
    lemma_sum_over_nonneg(m, m.dom().remove(a));
}

} // verus!
