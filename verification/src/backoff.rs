//! Bounded exponential backoff for reconnect attempts. Jitter, which is
//! drawn from chance, is left to the caller: the machine only fixes the
//! deterministic base delay, capped at the configured maximum.

use vstd::prelude::*;

verus! {

/// Mathematical backoff curve: `min(base * 2^attempt, cap)`.
pub open spec fn backoff_int(base: int, cap: int, attempt: nat) -> int
    decreases attempt,
{
    if attempt == 0 {
        if base <= cap {
            base
        } else {
            cap
        }
    } else {
        let prev = backoff_int(base, cap, (attempt - 1) as nat);
        if 2 * prev <= cap {
            2 * prev
        } else {
            cap
        }
    }
}

/// The curve never leaves `[0, cap]`.
pub proof fn lemma_backoff_bounds(base: int, cap: int, attempt: nat)
    requires
        0 <= base,
        0 <= cap,
    ensures
        0 <= backoff_int(base, cap, attempt) <= cap,
    decreases attempt,
{
    if attempt > 0 {
        lemma_backoff_bounds(base, cap, (attempt - 1) as nat);
    }
}

/// The delay before retry number `attempt`, in milliseconds.
pub fn backoff_delay_ms(base: u64, cap: u64, attempt: u32) -> (r: u64)
    ensures
        r == backoff_int(base as int, cap as int, attempt as nat),
        r <= cap,
{
    proof {
        lemma_backoff_bounds(base as int, cap as int, attempt as nat);
    }
    let mut d: u64 = if base <= cap {
        base
    } else {
        cap
    };
    let mut i: u32 = 0;
    while i < attempt
        invariant
            i <= attempt,
            d == backoff_int(base as int, cap as int, i as nat),
            d <= cap,
        decreases attempt - i,
    {
        proof {
            lemma_backoff_bounds(base as int, cap as int, (i + 1) as nat);
        }
        d = if d <= cap - d {
            2 * d
        } else {
            cap
        };
        i = i + 1;
    }
    d
}

} // verus!
