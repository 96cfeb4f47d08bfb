//! A fungible-token ledger: balances, spending approvals and delegated
//! transfers, as a deterministic state-transition function.
use vstd::prelude::*;

pub mod arith;
pub mod sum;
pub mod ledger;
pub mod laws;

verus! {

/// Identity of an account, as authenticated by the host.
pub type AccountId = u64;

/// Amount of tokens: total supply, balances and allowances.
pub type Balance = u128;

} // verus!
