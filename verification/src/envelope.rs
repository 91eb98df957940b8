//! The amplitude envelope.
//!
//! The render path smooths a gain value toward its gate target once per
//! sample, moving by one sixty-fourth of the remaining distance each step.
//! With a gate target held at one and the gain started at zero the value after
//! `k` steps is exactly one minus `(63/64)` to the power `k`.  The sample
//! path computes the recursion in floating point; this module states and
//! proves its exact rational semantics — the value after `k` steps as the
//! fraction [`env_num`]` / `[`env_den`] — and evaluates that fraction
//! exactly for small `k`.

use vstd::prelude::*;
use vstd::arithmetic::power::pow;

verus! {

/// Denominator of the envelope value after `k` steps: each step scales the
/// denominator by sixty-four.
pub open spec fn env_den(k: nat) -> int
    decreases k,
{
    if k == 0 {
        1
    } else {
        64 * env_den((k - 1) as nat)
    }
}

/// Numerator of the envelope value after `k` steps, starting from zero with
/// a gate target of one: one step of `amp + (1 - amp) / 64` turns the
/// fraction `num / den` into `(63 * num + den) / (64 * den)`.
pub open spec fn env_num(k: nat) -> int
    decreases k,
{
    if k == 0 {
        0
    } else {
        63 * env_num((k - 1) as nat) + env_den((k - 1) as nat)
    }
}

/// The denominator is at least one at every step.
pub proof fn lemma_env_den_pos(k: nat)
    ensures
        env_den(k) >= 1,
    decreases k,
{
    if k == 0 {
    } else {
        lemma_env_den_pos((k - 1) as nat);
    }
}

/// The denominator never shrinks as steps pass.
pub proof fn lemma_env_den_le(i: nat, j: nat)
    requires
        i <= j,
    ensures
        env_den(i) <= env_den(j),
    decreases j,
{
    if i == j {
    } else {
        lemma_env_den_le(i, (j - 1) as nat);
        lemma_env_den_pos((j - 1) as nat);
    }
}

/// Law of the envelope's closed form: after `k` steps with a gate target held at
/// one and the gain started at zero, the envelope equals
/// `(64^k - 63^k) / 64^k`, that is, one minus `(63/64)^k`; the distance
/// still to cover is exactly `63^k / 64^k`.
pub proof fn lemma_envelope_closed_form(k: nat)
    ensures
        env_den(k) == pow(64, k),
        env_num(k) == pow(64, k) - pow(63, k),
        env_den(k) - env_num(k) == pow(63, k),
    decreases k,
{
    reveal(pow);
    if k == 0 {
    } else {
        lemma_envelope_closed_form((k - 1) as nat);
    }
}

/// Law of monotone convergence: the envelope stays at or above zero, stays
/// strictly below one, and strictly grows at every step — as fractions,
/// `env_num(k) / env_den(k)` is strictly less than
/// `env_num(k + 1) / env_den(k + 1)`.
pub proof fn lemma_envelope_monotone(k: nat)
    ensures
        0 <= env_num(k),
        env_num(k) < env_den(k),
        env_num(k) * env_den((k + 1) as nat) < env_num((k + 1) as nat) * env_den(k),
    decreases k,
{
    if k == 0 {
    } else {
        lemma_envelope_monotone((k - 1) as nat);
    }
    let n = env_num(k);
    let d = env_den(k);
    assert(env_num((k + 1) as nat) == 63 * n + d);
    assert(env_den((k + 1) as nat) == 64 * d);
    assert(n * (64 * d) < (63 * n + d) * d) by (nonlinear_arith)
        requires
            0 <= n,
            n < d,
    ;
}

/// The envelope value after `k` steps with a gate target held at one, as an exact
/// fraction: numerator first, denominator second.  The denominator is
/// `64^k`, so steps beyond twenty-one would no longer fit the word width.
pub fn envelope_fraction(k: usize) -> (r: (u128, u128))
    requires
        k <= 21,
    ensures
        r.0 == env_num(k as nat),
        r.1 == env_den(k as nat),
{
    let mut num: u128 = 0;
    let mut den: u128 = 1;
    let mut i: usize = 0;
    while i < k
        invariant
            i <= k,
            k <= 21,
            num == env_num(i as nat),
            den == env_den(i as nat),
            num < den,
        decreases k - i,
    {
        proof {
            reveal_with_fuel(env_den, 22);
            assert(env_den(21) == 0x4000_0000_0000_0000_0000_0000_0000_0000);
            lemma_env_den_le(i as nat + 1, 21);
        }
        let next: u128 = 63 * num + den;
        den = 64 * den;
        num = next;
        i = i + 1;
    }
    (num, den)
}

} // verus!
