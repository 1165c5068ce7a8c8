//! A saturating event counter. The engines count how often they hand a
//! message to the caller-supplied handler; the count saturates instead of
//! wrapping so that it can never misreport a delivery as undone.

use vstd::prelude::*;

verus! {

/// `n + 1`, saturating at the largest `u64`.
pub open spec fn saturating_inc(n: u64) -> u64 {
    if n < u64::MAX {
        (n + 1) as u64
    } else {
        n
    }
}

/// Executable counterpart of [`saturating_inc`].
pub fn bump(n: u64) -> (r: u64)
    ensures
        r == saturating_inc(n),
{
    if n < u64::MAX {
        n + 1
    } else {
        n
    }
}

} // verus!
