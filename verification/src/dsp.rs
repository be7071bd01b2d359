//! Sample-domain signal helpers: peak measurement and peak-amplitude
//! normalization over signed 16-bit integer-domain samples.
//!
//! Normalization rescales a buffer so that its peak absolute amplitude
//! becomes the full 16-bit positive range; silent or degenerate input
//! (peak zero) is left unchanged rather than divided by zero.

use vstd::prelude::*;
use vstd::arithmetic::div_mod::{lemma_div_is_ordered, lemma_div_multiples_vanish, lemma_div_pos_is_pos};
use vstd::arithmetic::mul::lemma_mul_inequality;

verus! {

/// Absolute value of a sample, as a mathematical integer.
pub open spec fn abs1(x: i16) -> int {
    if x >= 0 {
        x as int
    } else {
        -(x as int)
    }
}

/// Peak absolute amplitude of a sample sequence (0 for an empty one).
pub open spec fn peak_of(s: Seq<i16>) -> int
    decreases s.len(),
{
    if s.len() == 0 {
        0
    } else {
        let rest = peak_of(s.drop_last());
        if abs1(s.last()) > rest {
            abs1(s.last())
        } else {
            rest
        }
    }
}

/// One sample rescaled so that an amplitude of `peak` becomes the full
/// positive 16-bit range, truncating toward zero.
pub open spec fn scaled(x: int, peak: int) -> int {
    if x >= 0 {
        (x * 32767) / peak
    } else {
        -((-x * 32767) / peak)
    }
}

/// `scaled`, narrowed back to a sample.
pub open spec fn scaled16(x: i16, peak: int) -> i16 {
    scaled(x as int, peak) as i16
}

/// The whole buffer after normalization: unchanged when the peak is zero,
/// otherwise every sample rescaled against the peak.
pub open spec fn normalized(s: Seq<i16>) -> Seq<i16> {
    if peak_of(s) == 0 {
        s
    } else {
        s.map_values(|x: i16| scaled16(x, peak_of(s)))
    }
}

/// The peak bounds every element, is attained by some element when the
/// sequence is nonempty, and stays within the 16-bit amplitude range.
pub proof fn lemma_peak_bounds(s: Seq<i16>)
    ensures
        0 <= peak_of(s) <= 32768,
        forall|i: int| 0 <= i < s.len() ==> abs1(s[i]) <= peak_of(s),
        s.len() > 0 ==> exists|i: int| 0 <= i < s.len() && abs1(s[i]) == peak_of(s),
    decreases s.len(),
{
    if s.len() > 0 {
        lemma_peak_bounds(s.drop_last());
        assert(abs1(s.last()) <= 32768);
        assert forall|i: int| 0 <= i < s.len() implies abs1(s[i]) <= peak_of(s) by {
            if i < s.len() - 1 {
                assert(s.drop_last()[i] == s[i]);
                assert(abs1(s[i]) <= peak_of(s.drop_last()));
            } else {
                assert(s[i] == s.last());
            }
        }
        if abs1(s.last()) > peak_of(s.drop_last()) {
            assert(abs1(s[s.len() - 1]) == peak_of(s));
        } else {
            if s.len() > 1 {
                let j = choose|j: int|
                    0 <= j < s.drop_last().len() && abs1(s.drop_last()[j]) == peak_of(s.drop_last());
                assert(abs1(s[j]) == peak_of(s));
            } else {
                assert(peak_of(s.drop_last()) == 0);
                assert(abs1(s[0]) == peak_of(s));
            }
        }
    }
}

/// Scaling against a positive peak keeps a bounded amplitude bounded:
/// the result of `(a * 32767) / peak` stays within `0 ..= 32767`, reaches
/// `32767` exactly at the peak, and is the identity when `peak == 32767`.
pub proof fn lemma_scale_bound(a: int, peak: int)
    requires
        0 < peak,
        0 <= a <= peak,
    ensures
        0 <= (a * 32767) / peak <= 32767,
        a == peak ==> (a * 32767) / peak == 32767,
        peak == 32767 ==> (a * 32767) / peak == a,
{
    lemma_mul_inequality(a, peak, 32767);
    lemma_div_is_ordered(a * 32767, peak * 32767, peak);
    lemma_div_multiples_vanish(32767, peak);
    assert(peak * 32767 == 32767 * peak) by (nonlinear_arith);
    if a > 0 {
        lemma_div_pos_is_pos(a * 32767, peak);
        assert(a * 32767 >= 0) by (nonlinear_arith)
            requires 0 <= a;
    }
    if peak == 32767 {
        lemma_div_multiples_vanish(a, peak);
        assert(a * 32767 == 32767 * a) by (nonlinear_arith);
    }
}

/// Peak absolute amplitude of a buffer, 0 when it is empty.
pub fn peak(samples: &Vec<i16>) -> (p: u32)
    ensures
        p as int == peak_of(samples@),
{
    let mut p: u32 = 0;
    let mut i: usize = 0;
    while i < samples.len()
        invariant
            i <= samples@.len(),
            p as int == peak_of(samples@.subrange(0, i as int)),
            p <= 32768,
        decreases samples@.len() - i,
    {
        let x = samples[i];
        let a: u32 = if x >= 0 {
            x as u32
        } else {
            (-(x as i32)) as u32
        };
        proof {
            assert(a as int == abs1(samples@[i as int]));
            assert(samples@.subrange(0, i + 1).drop_last() =~= samples@.subrange(0, i as int));
            assert(samples@.subrange(0, i + 1).last() == samples@[i as int]);
        }
        if a > p {
            p = a;
        }
        i += 1;
    }
    proof {
        assert(samples@.subrange(0, samples@.len() as int) =~= samples@);
    }
    p
}

/// One sample rescaled against a positive peak that bounds it.
fn scale_sample(x: i16, peak: u32) -> (r: i16)
    requires
        1 <= peak,
        abs1(x) <= peak as int,
    ensures
        r == scaled16(x, peak as int),
        r as int == scaled(x as int, peak as int),
{
    if x >= 0 {
        let v: u64 = (x as u64) * 32767 / (peak as u64);
        proof {
            lemma_scale_bound(x as int, peak as int);
        }
        v as i16
    } else {
        let m: u64 = ((-(x as i32)) as u64) * 32767 / (peak as u64);
        proof {
            lemma_scale_bound(-(x as int), peak as int);
        }
        (-(m as i64)) as i16
    }
}

/// Scale the buffer in place so its peak absolute amplitude becomes the
/// full positive 16-bit range; a buffer with peak 0 is left unchanged.
pub fn normalize(samples: &mut Vec<i16>)
    ensures
        final(samples)@ == normalized(old(samples)@),
{
    let p = peak(samples);
    if p == 0 {
        return;
    }
    proof {
        lemma_peak_bounds(samples@);
    }
    let ghost orig = samples@;
    let mut i: usize = 0;
    while i < samples.len()
        invariant
            i <= samples@.len(),
            samples@.len() == orig.len(),
            1 <= p <= 32768,
            p as int == peak_of(orig),
            forall|j: int| 0 <= j < i ==> samples@[j] == scaled16(orig[j], p as int),
            forall|j: int| i <= j < orig.len() ==> samples@[j] == orig[j],
            forall|j: int| 0 <= j < orig.len() ==> abs1(orig[j]) <= p as int,
        decreases samples@.len() - i,
    {
        let x = samples[i];
        proof {
            assert(samples@[i as int] == orig[i as int]);
            assert(abs1(x) <= p as int);
        }
        let y = scale_sample(x, p);
        samples.set(i, y);
        i += 1;
    }
    proof {
        assert(samples@ =~= normalized(orig));
    }
}

/// Normalization is idempotent: normalizing an already normalized buffer
/// changes nothing.
pub proof fn lemma_normalize_idempotent(s: Seq<i16>)
    ensures
        normalized(normalized(s)) == normalized(s),
{
    if peak_of(s) == 0 {
        assert(normalized(s) == s);
    } else {
        let p = peak_of(s);
        let t = normalized(s);
        lemma_peak_bounds(s);
        assert(p > 0);
        // Every rescaled sample stays within the target range, and the
        // sample that attained the old peak now attains exactly the target.
        assert forall|i: int| 0 <= i < t.len() implies abs1(t[i]) <= 32767 by {
            lemma_scale_bound(abs1(s[i]), p);
            assert(t[i] == scaled16(s[i], p));
        }
        let w = choose|w: int| 0 <= w < s.len() && abs1(s[w]) == p;
        assert(abs1(t[w]) == 32767) by {
            lemma_scale_bound(abs1(s[w]), p);
            assert(t[w] == scaled16(s[w], p));
        }
        lemma_peak_attained(t, 32767, w);
        assert(peak_of(t) == 32767);
        // Rescaling against a peak that already equals the target is the
        // identity on every sample.
        assert forall|i: int| 0 <= i < t.len() implies scaled16(t[i], 32767) == t[i] by {
            lemma_scale_bound(abs1(t[i]), 32767);
        }
        assert(normalized(t) =~= t);
    }
}

/// If some element attains amplitude `m` and `m` bounds every element,
/// then `m` is the peak.
pub proof fn lemma_peak_attained(s: Seq<i16>, m: int, w: int)
    requires
        0 <= w < s.len(),
        abs1(s[w]) == m,
        forall|i: int| 0 <= i < s.len() ==> abs1(s[i]) <= m,
    ensures
        peak_of(s) == m,
    decreases s.len(),
{
    if w == s.len() - 1 {
        lemma_peak_bounds(s.drop_last());
        assert(forall|i: int| 0 <= i < s.drop_last().len() ==> abs1(s.drop_last()[i]) <= m);
        if s.drop_last().len() > 0 {
            let j = choose|j: int|
                0 <= j < s.drop_last().len() && abs1(s.drop_last()[j]) == peak_of(s.drop_last());
            assert(peak_of(s.drop_last()) <= m);
        }
    } else {
        lemma_peak_attained(s.drop_last(), m, w);
        assert(abs1(s.last()) <= m);
    }
}

} // verus!
