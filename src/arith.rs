//! Safe arithmetic on balances: checked operations, and the best-effort
//! updates that keep the stored value when the checked operation fails.
use vstd::prelude::*;
use crate::Balance;

verus! {

/// The sum `a + b`, or `a` unchanged where the sum does not fit a `Balance`.
pub open spec fn add_or_keep(a: Balance, b: Balance) -> Balance {
    if a + b <= Balance::MAX {
        (a + b) as Balance
    } else {
        a
    }
}

/// The difference `a - b`, or `a` unchanged where it would be negative.
pub open spec fn sub_or_keep(a: Balance, b: Balance) -> Balance {
    if a >= b {
        (a - b) as Balance
    } else {
        a
    }
}

/// Adds `b` to `a` where the checked addition succeeds; otherwise leaves `a` as it was.
pub fn checked_add_or_keep(a: Balance, b: Balance) -> (r: Balance)
    ensures
        r == add_or_keep(a, b),
{
    match a.checked_add(b) {
        Some(sum) => sum,
        None => a,
    }
}

/// Subtracts `b` from `a` where the checked subtraction succeeds; otherwise leaves `a` as it was.
pub fn checked_sub_or_keep(a: Balance, b: Balance) -> (r: Balance)
    ensures
        r == sub_or_keep(a, b),
{
    match a.checked_sub(b) {
        Some(diff) => diff,
        None => a,
    }
}

} // verus!
