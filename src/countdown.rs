use vstd::prelude::*;

verus! {

/// Period of the countdown ticker in milliseconds, and the amount one firing
/// takes off the remaining cooldown time.
pub const TICK_STEP_MS: u32 = 16;

/// Remaining time after one firing of the ticker: one step less, never below zero.
pub open spec fn ticked(remaining: nat) -> nat {
    if remaining >= TICK_STEP_MS {
        (remaining - TICK_STEP_MS) as nat
    } else {
        0
    }
}

/// Remaining time after `n` firings of the ticker.
pub open spec fn after_ticks(remaining: nat, n: nat) -> nat
    decreases n,
{
    if n == 0 {
        remaining
    } else {
        after_ticks(ticked(remaining), (n - 1) as nat)
    }
}

/// Number of firings needed to bring `remaining` down to zero: the ceiling of
/// `remaining / TICK_STEP_MS`.
pub open spec fn ticks_to_drain(remaining: nat) -> nat {
    ((remaining + TICK_STEP_MS - 1) / (TICK_STEP_MS as int)) as nat
}

/// One firing of the ticker: saturating subtraction of one step.
pub fn tick_down(remaining: u32) -> (r: u32)
    ensures
        r == ticked(remaining as nat),
{
    remaining.saturating_sub(TICK_STEP_MS)
}

/// After `n` firings the countdown stands at `remaining - n * TICK_STEP_MS`,
/// or at zero once that would be negative.
pub proof fn lemma_after_ticks(remaining: nat, n: nat)
    ensures
        after_ticks(remaining, n) == (if remaining >= n * TICK_STEP_MS {
            (remaining - n * TICK_STEP_MS) as nat
        } else {
            0nat
        }),
    decreases n,
{
    if n > 0 {
        lemma_after_ticks(ticked(remaining), (n - 1) as nat);
        assert((n - 1) * TICK_STEP_MS == n * TICK_STEP_MS - TICK_STEP_MS) by (nonlinear_arith);
    }
}

/// Draining the countdown: started at any value, it is still above zero after
/// fewer than `ticks_to_drain(remaining)` firings and exactly zero after that
/// many; further firings keep it at zero.
pub proof fn lemma_countdown_drains(remaining: nat, n: nat)
    ensures
        n < ticks_to_drain(remaining) ==> after_ticks(remaining, n) > 0,
        n >= ticks_to_drain(remaining) ==> after_ticks(remaining, n) == 0,
{
    lemma_after_ticks(remaining, n);
    let k = ticks_to_drain(remaining);
    assert(k * 16 >= remaining && (k > 0 ==> (k - 1) * 16 < remaining)) by (nonlinear_arith)
        requires
            k == (remaining + 15) / 16,
    ;
    assert(n < k ==> n * 16 < remaining) by (nonlinear_arith)
        requires
            k > 0 ==> (k - 1) * 16 < remaining,
    ;
    assert(n >= k ==> n * 16 >= remaining) by (nonlinear_arith)
        requires
            k * 16 >= remaining,
    ;
}

} // verus!
