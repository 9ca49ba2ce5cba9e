use vstd::prelude::*;
use vstd::arithmetic::div_mod::{lemma_fundamental_div_mod, lemma_fundamental_div_mod_converse};

verus! {

/// Whether unix second `t` is a poll instant for block frequency `f`: one
/// second of grace past a multiple of `f`.
pub open spec fn is_tick(t: int, f: int) -> bool {
    t >= 1 && (t - 1) % f == 0
}

/// The first poll instant strictly after `now` for block frequency `f`.
pub open spec fn next_tick_after(now: int, f: int) -> int {
    if now % f == 0 {
        now + 1
    } else {
        now - now % f + f + 1
    }
}

/// The poll instants that follow `start` one after the other: the first
/// after `start`, then the first after that one, and so on.
pub open spec fn tick_after_steps(start: int, f: int, n: nat) -> int
    decreases n,
{
    if n == 0 {
        next_tick_after(start, f)
    } else {
        next_tick_after(tick_after_steps(start, f, (n - 1) as nat), f)
    }
}

/// `next_tick_after` gives a poll instant, after `now`, and no later than the
/// first one after `now`.
pub proof fn lemma_next_tick_is_first(now: int, f: int)
    requires
        now >= 0,
        f > 0,
    ensures
        is_tick(next_tick_after(now, f), f),
        now < next_tick_after(now, f) <= now + f,
        0 <= now % f <= now,
{
    lemma_fundamental_div_mod(now, f);
    let q = now / f;
    let t = next_tick_after(now, f);
    assert((q + 1) * f == f * q + f) by (nonlinear_arith);
    assert(q * f == f * q) by (nonlinear_arith);
    if now % f == 0 {
        lemma_fundamental_div_mod_converse(t - 1, f, q, 0);
    } else {
        lemma_fundamental_div_mod_converse(t - 1, f, q + 1, 0);
    }
}

/// From a poll instant, the next one comes exactly `f` seconds later.
pub proof fn lemma_next_of_tick(t: int, f: int)
    requires
        f > 0,
        is_tick(t, f),
    ensures
        next_tick_after(t, f) == t + f,
        is_tick(t + f, f),
{
    lemma_fundamental_div_mod(t - 1, f);
    let q = (t - 1) / f;
    assert((q + 1) * f == f * q + f) by (nonlinear_arith);
    assert(q * f == f * q) by (nonlinear_arith);
    if f == 1 {
        lemma_fundamental_div_mod_converse(t, f, t, 0);
    } else {
        lemma_fundamental_div_mod_converse(t, f, q, 1);
    }
    lemma_fundamental_div_mod_converse(t + f - 1, f, q + 1, 0);
}

/// Polls do not drift: the `n`-th poll instant after the first one lies
/// exactly `n` block intervals after it.
pub proof fn lemma_ticks_do_not_drift(start: int, f: int, n: nat)
    requires
        start >= 0,
        f > 0,
    ensures
        tick_after_steps(start, f, n) == next_tick_after(start, f) + n * f,
        is_tick(tick_after_steps(start, f, n), f),
    decreases n,
{
    if n == 0 {
        lemma_next_tick_is_first(start, f);
    } else {
        lemma_ticks_do_not_drift(start, f, (n - 1) as nat);
        lemma_next_of_tick(tick_after_steps(start, f, (n - 1) as nat), f);
        assert((n - 1) * f + f == n * f) by (nonlinear_arith);
    }
}

/// The instant, in unix seconds, of the first poll strictly after `now`:
/// the next multiple of `block_frequency` plus one second of grace.
pub fn next_tick(now: u64, block_frequency: u64) -> (r: u64)
    requires
        block_frequency > 0,
        now as int + block_frequency as int <= u64::MAX,
    ensures
        r as int == next_tick_after(now as int, block_frequency as int),
        is_tick(r as int, block_frequency as int),
        now < r <= now as int + block_frequency as int,
{
    proof {
        lemma_next_tick_is_first(now as int, block_frequency as int);
    }
    let rem = now % block_frequency;
    if rem == 0 {
        now + 1
    } else {
        now - rem + block_frequency + 1
    }
}

} // verus!
