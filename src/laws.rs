//! Properties of the ledger that relate several operations or hold of every
//! state, proved over the operations' models.
use vstd::prelude::*;
use crate::ledger::{lemma_init_step_wf, lemma_transfer_step_wf, Error, Event, LedgerState};
use crate::sum::total;
use crate::{AccountId, Balance};

verus! {

/// Every operation keeps the ledger's invariant: before `init` nothing is
/// held, and afterwards the balances add up to exactly the total supply.
pub proof fn lemma_operations_keep_invariant(s: LedgerState, a: AccountId, b: AccountId, value: Balance)
    requires
        s.wf(),
    ensures
        s.init_step(a).0.wf(),
        s.transfer_step(a, b, value).0.wf(),
        s.approve_step(a, b, value).0.wf(),
        s.transfer_from_step(a, b, value).0.wf(),
{
    lemma_init_step_wf(s, a);
    lemma_transfer_step_wf(s, a, b, value);
    if s.allowances.contains_key((a, b)) && s.allowances[(a, b)] >= value {
        let charged = LedgerState {
            allowances: s.allowances.insert((a, b), (s.allowances[(a, b)] - value) as Balance),
            events: s.events.push(Event::Approval(a, b, value)),
            ..s
        };
        lemma_transfer_step_wf(charged, a, b, value);
    }
}

/// On a ledger not yet initialized, `init` succeeds: the caller becomes the
/// one account, holding the whole total supply, and the ledger is
/// initialized. A second `init`, by anyone, fails and changes nothing.
pub proof fn lemma_init_once(s: LedgerState, caller: AccountId, again: AccountId)
    requires
        s.wf(),
        !s.init,
    ensures
        ({
            let (s1, r1) = s.init_step(caller);
            let (s2, r2) = s1.init_step(again);
            &&& r1 == Ok::<(), Error>(())
            &&& s1.init
            &&& s1.balances.dom() == set![caller]
            &&& s1.balance(caller) == s1.total_supply
            &&& forall|who: AccountId| who != caller ==> s1.balance(who) == 0
            &&& r2 == Err::<(), Error>(Error::AlreadyInitialized)
            &&& s2 == s1
        }),
{
    let s1 = s.init_step(caller).0;
    assert(s1.balances.dom() =~= set![caller]);
}

/// A transfer that the sender's balance covers succeeds and moves exactly
/// `value`: between two accounts the sender loses it, the receiver gains it,
/// their sum and every other balance stay; to oneself nothing changes. The
/// sum of all balances is kept.
pub proof fn lemma_transfer_moves_value(s: LedgerState, from: AccountId, to: AccountId, value: Balance)
    requires
        s.wf(),
        s.balances.contains_key(from),
        s.balances[from] > value,
    ensures
        ({
            let (s1, r) = s.transfer_step(from, to, value);
            &&& r == Ok::<(), Error>(())
            &&& from != to ==> {
                &&& s1.balance(from) == s.balance(from) - value
                &&& s1.balance(to) == s.balance(to) + value
                &&& s1.balance(from) + s1.balance(to) == s.balance(from) + s.balance(to)
            }
            &&& from == to ==> s1.balances == s.balances
            &&& forall|who: AccountId| who != from && who != to ==> s1.balance(who) == s.balance(who)
            &&& total(s1.balances) == total(s.balances)
            &&& s1.events == s.events.push(Event::Transfer(from, to, value))
        }),
{
    lemma_transfer_step_wf(s, from, to, value);
    let s1 = s.transfer_step(from, to, value).0;
    if from == to {
        assert(s1.balances =~= s.balances);
    }
}

/// The sender's balance must exceed the amount strictly: a transfer of the
/// entire balance is refused as insufficient and changes nothing, while one
/// unit less succeeds.
pub proof fn lemma_full_balance_transfer(s: LedgerState, from: AccountId, to: AccountId)
    requires
        s.balances.contains_key(from),
    ensures
        s.transfer_step(from, to, s.balances[from]) == (s, Err::<(), Error>(Error::InsufficientBalance)),
        s.balances[from] >= 1 ==> s.transfer_step(from, to, (s.balances[from] - 1) as Balance).1
            == Ok::<(), Error>(()),
{
}

/// Two approvals for the same pair add up: the allowance becomes `v1 + v2`,
/// or stays `v1` where that sum overflows; both events are recorded with the
/// values asked for.
pub proof fn lemma_approve_twice(s: LedgerState, owner: AccountId, spender: AccountId, v1: Balance, v2: Balance)
    requires
        s.balances.contains_key(owner),
        !s.allowances.contains_key((owner, spender)),
    ensures
        ({
            let (s1, r1) = s.approve_step(owner, spender, v1);
            let (s2, r2) = s1.approve_step(owner, spender, v2);
            &&& r1 == Ok::<(), Error>(())
            &&& r2 == Ok::<(), Error>(())
            &&& v1 + v2 <= Balance::MAX ==> s2.allowance(owner, spender) == v1 + v2
            &&& v1 + v2 > Balance::MAX ==> s2.allowance(owner, spender) == v1
            &&& s2.events == s.events.push(Event::Approval(owner, spender, v1)).push(
                Event::Approval(owner, spender, v2),
            )
        }),
{
}

/// A delegated transfer of more than the granted allowance fails as
/// insufficient and leaves the whole ledger as it was.
pub proof fn lemma_transfer_from_over_allowance(s: LedgerState, from: AccountId, to: AccountId, value: Balance)
    requires
        s.allowances.contains_key((from, to)),
        value > s.allowances[(from, to)],
    ensures
        s.transfer_from_step(from, to, value) == (s, Err::<(), Error>(Error::InsufficientAllowance)),
{
}

} // verus!
