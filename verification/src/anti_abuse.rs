//! Per-contract call counter used to throttle abusive callers.

use vstd::prelude::*;

verus! {

/// The counter value that a check stores, given what the instance storage
/// held before (`None` when nothing was stored yet, which counts as zero).
pub open spec fn rate_limit_next(stored: Option<u32>) -> int {
    match stored {
        Some(count) => count + 1,
        None => 1,
    }
}

/// Records one more call: returns the count to write back to the instance
/// storage, which is the stored count (zero when absent) plus one.
///
/// The stored count must be below `u32::MAX`; one more call would overflow.
pub fn check_rate_limit(stored: Option<u32>) -> (next: u32)
    requires
        stored matches Some(count) ==> count < u32::MAX,
    ensures
        next == rate_limit_next(stored),
{
    let count: u32 = match stored {
        Some(count) => count,
        None => 0,
    };
    count + 1
}

/// The value held in the instance storage after `n` consecutive checks that
/// each stored the count they returned, starting from an empty storage.
pub open spec fn stored_after_checks(n: nat) -> Option<u32>
    decreases n,
{
    if n == 0 {
        None
    } else {
        Some(rate_limit_next(stored_after_checks((n - 1) as nat)) as u32)
    }
}

/// The counter counts calls: starting from an empty storage, after `n`
/// checks (each writing back what it returned) the stored count is `n`.
pub proof fn lemma_counter_counts_calls(n: nat)
    requires
        0 < n <= u32::MAX,
    ensures
        stored_after_checks(n) == Some(n as u32),
    decreases n,
{
    if n > 1 {
        lemma_counter_counts_calls((n - 1) as nat);
        assert(rate_limit_next(stored_after_checks((n - 1) as nat)) == n);
    } else {
        assert(rate_limit_next(stored_after_checks(0)) == 1);
    }
}

} // verus!
