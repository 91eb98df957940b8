//! The oscillator/mixer sum.
//!
//! Per output sample, every active voice contributes one signed unit to the
//! mixed signal: plus one when the render path's sign test on that voice's
//! sine (the sign of the oscillator value times the envelope) comes out
//! positive, minus one otherwise.  The sign tests are made on the sample
//! path outside this crate; the mix of their outcomes is exact integer
//! arithmetic and is verified here.

use vstd::prelude::*;

verus! {

/// The mixed signal that a sequence of per-voice sign-test outcomes yields:
/// each `true` adds one, each `false` subtracts one.
pub open spec fn mixed_signal(s: Seq<bool>) -> int
    decreases s.len(),
{
    if s.len() == 0 {
        0
    } else {
        mixed_signal(s.drop_last()) + (if s.last() {
            1int
        } else {
            -1int
        })
    }
}

/// Sum the signed unit contributions of the voices, given the outcome of
/// each voice's sign test, in pool order.
pub fn mix_voice_signs(up: &[bool]) -> (signal: i64)
    requires
        up@.len() <= i64::MAX,
    ensures
        signal == mixed_signal(up@),
        -(up@.len() as int) <= signal <= up@.len() as int,
{
    let n = up.len();
    let mut signal: i64 = 0;
    let mut i: usize = 0;
    while i < n
        invariant
            i <= n,
            n == up@.len(),
            n <= i64::MAX,
            signal == mixed_signal(up@.take(i as int)),
            -(i as int) <= signal <= i as int,
        decreases n - i,
    {
        proof {
            assert(up@.take(i as int + 1).drop_last() =~= up@.take(i as int));
        }
        if up[i] {
            signal = signal + 1;
        } else {
            signal = signal - 1;
        }
        i = i + 1;
    }
    proof {
        assert(up@.take(n as int) =~= up@);
    }
    signal
}

/// Law of the two-voice mix: with exactly two active voices the mixed signal
/// is one of minus two, zero and plus two at every sample — the sum of two
/// signed units can take no other value.
pub proof fn lemma_two_voice_mix(s: Seq<bool>)
    requires
        s.len() == 2,
    ensures
        mixed_signal(s) == -2 || mixed_signal(s) == 0 || mixed_signal(s) == 2,
{
    let s1 = s.drop_last();
    assert(s1.drop_last() =~= Seq::<bool>::empty());
    assert(mixed_signal(s1.drop_last()) == 0);
    assert(mixed_signal(s1) == mixed_signal(s1.drop_last()) + (if s1.last() {
        1int
    } else {
        -1int
    }));
    assert(mixed_signal(s) == mixed_signal(s1) + (if s.last() {
        1int
    } else {
        -1int
    }));
}

} // verus!
