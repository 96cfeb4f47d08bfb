//! The token ledger: its state, the operations the host dispatches, and the
//! events they record.
use vstd::prelude::*;
use std::collections::BTreeMap;
use crate::arith::{add_or_keep, checked_add_or_keep, checked_sub_or_keep, sub_or_keep};
use crate::sum::{lemma_total_bounds_one, lemma_total_empty, lemma_total_bounds_pair, lemma_total_new_key, lemma_total_update, total};
use crate::{AccountId, Balance};

verus! {

broadcast use vstd::std_specs::btree::group_btree_axioms, vstd::laws_cmp::group_laws_cmp;

/// A record of a ledger operation, for observers outside the ledger.
#[derive(PartialEq, Eq, Structural, Clone, Copy, Debug)]
pub enum Event {
    /// Tokens moved: from, to, value.
    Transfer(AccountId, AccountId, Balance),
    /// A spending approval was made or consumed: owner, spender, value.
    Approval(AccountId, AccountId, Balance),
}

/// Why an operation was refused.
#[derive(PartialEq, Eq, Structural, Clone, Copy, Debug)]
pub enum Error {
    /// `init` was already called once.
    AlreadyInitialized,
    /// The account has never been credited.
    NoAccount,
    /// The sender's balance does not exceed the amount.
    InsufficientBalance,
    /// No allowance was ever granted for the pair.
    NoAllowance,
    /// The allowance is smaller than the amount.
    InsufficientAllowance,
}

/// The mathematical model of a ledger.
pub struct LedgerState {
    pub init: bool,
    pub total_supply: Balance,
    pub name: Seq<u8>,
    pub ticker: Seq<u8>,
    pub balances: Map<AccountId, Balance>,
    pub allowances: Map<(AccountId, AccountId), Balance>,
    pub events: Seq<Event>,
}

/// What `who` holds in `balances`: zero where it has no entry.
pub open spec fn balance_in(balances: Map<AccountId, Balance>, who: AccountId) -> Balance {
    if balances.contains_key(who) {
        balances[who]
    } else {
        0
    }
}

impl LedgerState {
    /// The balance of `who`, zero for an account never credited.
    pub open spec fn balance(self, who: AccountId) -> Balance {
        balance_in(self.balances, who)
    }

    /// What `spender` may still withdraw from `owner`, zero where nothing was granted.
    pub open spec fn allowance(self, owner: AccountId, spender: AccountId) -> Balance {
        if self.allowances.contains_key((owner, spender)) {
            self.allowances[(owner, spender)]
        } else {
            0
        }
    }

    /// The ledger's invariant: nothing is held before `init`, and afterwards
    /// the balances add up to the total supply.
    pub open spec fn wf(self) -> bool {
        &&& self.balances.dom().finite()
        &&& !self.init ==> self.balances == Map::<AccountId, Balance>::empty()
        &&& self.init ==> total(self.balances) == self.total_supply as int
    }

    /// `init` by `caller`: the new state and the result.
    pub open spec fn init_step(self, caller: AccountId) -> (LedgerState, Result<(), Error>) {
        if self.init {
            (self, Err(Error::AlreadyInitialized))
        } else {
            (
                LedgerState {
                    init: true,
                    balances: self.balances.insert(caller, self.total_supply),
                    ..self
                },
                Ok(()),
            )
        }
    }

    /// Moving `value` from `from` to `to`: the new state and the result. The
    /// sender's balance must exceed `value` strictly. The event comes first;
    /// each balance update keeps the old value where checked arithmetic fails.
    pub open spec fn transfer_step(self, from: AccountId, to: AccountId, value: Balance) -> (LedgerState, Result<(), Error>) {
        if !self.balances.contains_key(from) {
            (self, Err(Error::NoAccount))
        } else if !(self.balances[from] > value) {
            (self, Err(Error::InsufficientBalance))
        } else {
            let debited = self.balances.insert(from, sub_or_keep(self.balances[from], value));
            let credited = debited.insert(to, add_or_keep(balance_in(debited, to), value));
            (
                LedgerState {
                    balances: credited,
                    events: self.events.push(Event::Transfer(from, to, value)),
                    ..self
                },
                Ok(()),
            )
        }
    }

    /// `approve` of `value` for `spender` by `owner`: the new state and the
    /// result. The allowance grows by `value`, or stays where the sum overflows.
    pub open spec fn approve_step(self, owner: AccountId, spender: AccountId, value: Balance) -> (LedgerState, Result<(), Error>) {
        if !self.balances.contains_key(owner) {
            (self, Err(Error::NoAccount))
        } else {
            (
                LedgerState {
                    allowances: self.allowances.insert(
                        (owner, spender),
                        add_or_keep(self.allowance(owner, spender), value),
                    ),
                    events: self.events.push(Event::Approval(owner, spender, value)),
                    ..self
                },
                Ok(()),
            )
        }
    }

    /// `transfer_from` of `value` from `from` to `to`: the new state and the
    /// result. The allowance is decremented and the event recorded before the
    /// transfer is attempted, so both stay where the transfer itself fails.
    pub open spec fn transfer_from_step(self, from: AccountId, to: AccountId, value: Balance) -> (LedgerState, Result<(), Error>) {
        if !self.allowances.contains_key((from, to)) {
            (self, Err(Error::NoAllowance))
        } else if self.allowances[(from, to)] < value {
            (self, Err(Error::InsufficientAllowance))
        } else {
            let charged = LedgerState {
                allowances: self.allowances.insert(
                    (from, to),
                    sub_or_keep(self.allowances[(from, to)], value),
                ),
                events: self.events.push(Event::Approval(from, to, value)),
                ..self
            };
            charged.transfer_step(from, to, value)
        }
    }
}

/// A transfer keeps the balances adding up to the total supply.
pub proof fn lemma_transfer_step_wf(s: LedgerState, from: AccountId, to: AccountId, value: Balance)
    requires
        s.wf(),
    ensures
        s.transfer_step(from, to, value).0.wf(),
        s.balances.contains_key(from) && s.balances[from] > value ==> {
            let debited = s.balances.insert(from, sub_or_keep(s.balances[from], value));
            balance_in(debited, to) + value <= Balance::MAX
        },
{
    if s.balances.contains_key(from) && s.balances[from] > value {
        let b = s.balances;
        let f = b[from];
        let debited = b.insert(from, (f - value) as Balance);
        lemma_total_update(b, from, (f - value) as Balance);
        lemma_total_bounds_one(b, from);
        if to == from {
            lemma_total_update(debited, to, f);
        } else if b.contains_key(to) {
            lemma_total_bounds_pair(b, from, to);
            lemma_total_update(debited, to, (b[to] + value) as Balance);
        } else {
            lemma_total_new_key(debited, to, value);
        }
    }
}

/// `init` keeps the ledger's invariant.
pub proof fn lemma_init_step_wf(s: LedgerState, caller: AccountId)
    requires
        s.wf(),
    ensures
        s.init_step(caller).0.wf(),
{
    if !s.init {
        lemma_total_empty();
        lemma_total_new_key(s.balances, caller, s.total_supply);
    }
}

/// The ledger's storage: the init flag, the genesis configuration, the
/// balance and allowance maps, and the events recorded so far.
pub struct Module {
    initialized: bool,
    total_supply: Balance,
    name: Vec<u8>,
    ticker: Vec<u8>,
    balances: BTreeMap<AccountId, Balance>,
    allowances: BTreeMap<(AccountId, AccountId), Balance>,
    events: Vec<Event>,
}

impl View for Module {
    type V = LedgerState;

    closed spec fn view(&self) -> LedgerState {
        LedgerState {
            init: self.initialized,
            total_supply: self.total_supply,
            name: self.name@,
            ticker: self.ticker@,
            balances: self.balances@,
            allowances: self.allowances@,
            events: self.events@,
        }
    }
}

impl Module {
    /// A ledger from its genesis configuration: not yet initialized, with no
    /// balances, allowances or events.
    pub fn new(total_supply: Balance, name: Vec<u8>, ticker: Vec<u8>) -> (m: Module)
        ensures
            m@.wf(),
            !m@.init,
            m@.total_supply == total_supply,
            m@.name == name@,
            m@.ticker == ticker@,
            m@.balances == Map::<AccountId, Balance>::empty(),
            m@.allowances == Map::<(AccountId, AccountId), Balance>::empty(),
            m@.events == Seq::<Event>::empty(),
    {
        Module {
            initialized: false,
            total_supply,
            name,
            ticker,
            balances: BTreeMap::new(),
            allowances: BTreeMap::new(),
            events: Vec::new(),
        }
    }

    fn deposit_event(&mut self, event: Event)
        ensures
            final(self)@ == (LedgerState { events: old(self)@.events.push(event), ..old(self)@ }),
    {
        self.events.push(event);
    }

    /// Moves `value` from `from` to `to` where `from` has an account whose
    /// balance exceeds `value`.
    fn _transfer(&mut self, from: AccountId, to: AccountId, value: Balance) -> (r: Result<(), Error>)
        requires
            old(self)@.wf(),
        ensures
            (final(self)@, r) == old(self)@.transfer_step(from, to, value),
            final(self)@.wf(),
    {
        proof {
            lemma_transfer_step_wf(self@, from, to, value);
        }
        if !self.balances.contains_key(&from) {
            return Err(Error::NoAccount);
        }
        let sender_balance = self.balance_of(from);
        if !(sender_balance > value) {
            return Err(Error::InsufficientBalance);
        }
        self.deposit_event(Event::Transfer(from, to, value));
        let from_balance = self.balance_of(from);
        self.balances.insert(from, checked_sub_or_keep(from_balance, value));
        let to_balance = self.balance_of(to);
        self.balances.insert(to, checked_add_or_keep(to_balance, value));
        Ok(())
    }

    /// Credits `caller` with the whole total supply and marks the ledger
    /// initialized; refused once the ledger is initialized.
    pub fn init(&mut self, caller: AccountId) -> (r: Result<(), Error>)
        requires
            old(self)@.wf(),
        ensures
            (final(self)@, r) == old(self)@.init_step(caller),
            final(self)@.wf(),
    {
        proof {
            lemma_init_step_wf(self@, caller);
        }
        if self.initialized {
            return Err(Error::AlreadyInitialized);
        }
        self.balances.insert(caller, self.total_supply);
        self.initialized = true;
        Ok(())
    }

    /// Moves `value` from `caller` to `to`.
    pub fn transfer(&mut self, caller: AccountId, to: AccountId, value: Balance) -> (r: Result<(), Error>)
        requires
            old(self)@.wf(),
        ensures
            (final(self)@, r) == old(self)@.transfer_step(caller, to, value),
            final(self)@.wf(),
    {
        self._transfer(caller, to, value)
    }

    /// Lets `spender` withdraw `value` more from `caller`. The event records
    /// `value` even where the new allowance would overflow and is left as it was.
    pub fn approve(&mut self, caller: AccountId, spender: AccountId, value: Balance) -> (r: Result<(), Error>)
        requires
            old(self)@.wf(),
        ensures
            (final(self)@, r) == old(self)@.approve_step(caller, spender, value),
            final(self)@.wf(),
    {
        if !self.balances.contains_key(&caller) {
            return Err(Error::NoAccount);
        }
        self.deposit_event(Event::Approval(caller, spender, value));
        let current = self.allowance((caller, spender));
        self.allowances.insert((caller, spender), checked_add_or_keep(current, value));
        Ok(())
    }

    /// Moves `value` from `from` to `to` against the allowance that `from`
    /// granted to `to`, whoever calls. The allowance is charged and the event
    /// recorded before the transfer, so both stay where the transfer fails;
    /// the host discards the writes of a failed call.
    pub fn transfer_from(&mut self, from: AccountId, to: AccountId, value: Balance) -> (r: Result<(), Error>)
        requires
            old(self)@.wf(),
        ensures
            (final(self)@, r) == old(self)@.transfer_from_step(from, to, value),
            final(self)@.wf(),
    {
        if !self.allowances.contains_key(&(from, to)) {
            return Err(Error::NoAllowance);
        }
        if !(self.allowance((from, to)) >= value) {
            return Err(Error::InsufficientAllowance);
        }
        let current = self.allowance((from, to));
        self.allowances.insert((from, to), checked_sub_or_keep(current, value));
        self.deposit_event(Event::Approval(from, to, value));
        self._transfer(from, to, value)
    }

    /// Whether `init` has been called.
    pub fn is_init(&self) -> (r: bool)
        ensures
            r == self@.init,
    {
        self.initialized
    }

    /// The total supply fixed at genesis.
    pub fn total_supply(&self) -> (r: Balance)
        ensures
            r == self@.total_supply,
    {
        self.total_supply
    }

    /// The token's name.
    pub fn name(&self) -> (r: &Vec<u8>)
        ensures
            r@ == self@.name,
    {
        &self.name
    }

    /// The token's ticker.
    pub fn ticker(&self) -> (r: &Vec<u8>)
        ensures
            r@ == self@.ticker,
    {
        &self.ticker
    }

    /// The events recorded so far, oldest first.
    pub fn events(&self) -> (r: &Vec<Event>)
        ensures
            r@ == self@.events,
    {
        &self.events
    }

    /// What `key.1` may still withdraw from `key.0`, zero where nothing was granted.
    pub fn allowance(&self, key: (AccountId, AccountId)) -> (r: Balance)
        ensures
            r == self@.allowance(key.0, key.1),
    {
        match self.allowances.get(&key) {
            Some(a) => *a,
            None => 0,
        }
    }

    /// The balance of `who`, zero for an account never credited.
    pub fn balance_of(&self, who: AccountId) -> (r: Balance)
        ensures
            r == self@.balance(who),
    {
        match self.balances.get(&who) {
            Some(b) => *b,
            None => 0,
        }
    }
}

} // verus!
