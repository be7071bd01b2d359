//! Resampler/filter stage: channel down-mix, deterministic rate
//! conversion to the canonical 16 kHz, and fixed-point band-pass
//! filtering applied after the rate conversion.
//!
//! Rate conversion picks, for each output position, the input sample at
//! the corresponding time offset; it never reorders samples, so relative
//! timing is preserved. The filters are first-order sections in Q16
//! fixed point with saturation to the 16-bit range, so the whole stage
//! is deterministic integer arithmetic.

use vstd::prelude::*;
use vstd::arithmetic::div_mod::{
    lemma_div_is_ordered, lemma_fundamental_div_mod, lemma_fundamental_div_mod_converse,
};
use vstd::arithmetic::mul::lemma_mul_inequality;
use crate::pcm::PcmBuffer;

verus! {

/// The canonical sample rate the recognition engine expects.
pub const TARGET_RATE: u32 = 16000;

/// Truncating (toward zero) division, matching machine division.
pub open spec fn tdiv(a: int, b: int) -> int {
    if a >= 0 {
        a / b
    } else {
        -((-a) / b)
    }
}

/// Saturate a value to the signed 16-bit range.
pub open spec fn clamp16(v: int) -> int {
    if v < -32768 {
        -32768
    } else if v > 32767 {
        32767
    } else {
        v
    }
}

/// Sum of the `n` samples starting at `start`.
pub open spec fn frame_sum(s: Seq<i16>, start: int, n: int) -> int
    decreases n,
{
    if n <= 0 {
        0
    } else {
        frame_sum(s, start, n - 1) + s[start + n - 1]
    }
}

/// The mono sequence obtained by averaging each frame of `ch` samples.
pub open spec fn mono_of(s: Seq<i16>, ch: int) -> Seq<i16> {
    Seq::new((s.len() as int / ch) as nat, |f: int| tdiv(frame_sum(s, f * ch, ch), ch) as i16)
}

/// Deterministic rate conversion: output position `k` takes the input
/// sample at the same time offset.
pub open spec fn resampled(s: Seq<i16>, from_rate: int, to_rate: int) -> Seq<i16> {
    Seq::new(((s.len() * to_rate) / from_rate) as nat, |k: int| s[(k * from_rate) / to_rate])
}

/// Q16 low-pass coefficient for cutoff `fc` at rate `rate`, from the
/// RC relation `alpha = 2*pi*fc / (rate + 2*pi*fc)`.
pub open spec fn lp_alpha(fc: int, rate: int) -> int {
    (65536 * (6283 * fc)) / (1000 * rate + 6283 * fc)
}

/// Q16 high-pass coefficient for cutoff `fc` at rate `rate`, from the
/// RC relation `beta = rate / (rate + 2*pi*fc)`.
pub open spec fn hp_beta(fc: int, rate: int) -> int {
    (65536 * (1000 * rate)) / (1000 * rate + 6283 * fc)
}

/// One low-pass step: move the state toward the input by `alpha`.
pub open spec fn lp_step(y: int, x: int, alpha: int) -> int {
    clamp16(y + tdiv(alpha * (x - y), 65536))
}

/// Low-pass state after consuming the first `n` samples.
pub open spec fn lp_state(s: Seq<i16>, alpha: int, n: int) -> int
    decreases n,
{
    if n <= 0 {
        0
    } else {
        lp_step(lp_state(s, alpha, n - 1), s[n - 1] as int, alpha)
    }
}

/// The whole sequence low-pass filtered.
pub open spec fn lp_seq(s: Seq<i16>, alpha: int) -> Seq<i16> {
    Seq::new(s.len(), |k: int| lp_state(s, alpha, k + 1) as i16)
}

/// One high-pass step over the previous output and input.
pub open spec fn hp_step(y: int, xprev: int, x: int, beta: int) -> int {
    clamp16(tdiv(beta * (y + x - xprev), 65536))
}

/// High-pass state after consuming the first `n` samples (the state is
/// the latest output; the previous input is read off the sequence).
pub open spec fn hp_state(s: Seq<i16>, beta: int, n: int) -> int
    decreases n,
{
    if n <= 0 {
        0
    } else {
        hp_step(hp_state(s, beta, n - 1), if n == 1 {
            0
        } else {
            s[n - 2] as int
        }, s[n - 1] as int, beta)
    }
}

/// The whole sequence high-pass filtered.
pub open spec fn hp_seq(s: Seq<i16>, beta: int) -> Seq<i16> {
    Seq::new(s.len(), |k: int| hp_state(s, beta, k + 1) as i16)
}

/// Band-pass: low-pass at `low_pass_hz`, then high-pass at
/// `high_pass_hz`, with coefficients taken at `rate`.
pub open spec fn band_passed(s: Seq<i16>, low_pass_hz: int, high_pass_hz: int, rate: int) -> Seq<
    i16,
> {
    hp_seq(lp_seq(s, lp_alpha(low_pass_hz, rate)), hp_beta(high_pass_hz, rate))
}

/// Every frame sum of `n` bounded samples is bounded by `n` extremes.
proof fn lemma_frame_sum_bounds(s: Seq<i16>, start: int, n: int)
    requires
        0 <= n,
        0 <= start,
        start + n <= s.len(),
    ensures
        -32768 * n <= frame_sum(s, start, n) <= 32767 * n,
    decreases n,
{
    if n > 0 {
        lemma_frame_sum_bounds(s, start, n - 1);
    }
}

/// A truncating quotient of a bounded sum stays in the sample range.
proof fn lemma_avg_range(sum: int, ch: int)
    requires
        1 <= ch,
        -32768 * ch <= sum <= 32767 * ch,
    ensures
        -32768 <= tdiv(sum, ch) <= 32767,
{
    if sum >= 0 {
        lemma_div_is_ordered(sum, 32767 * ch, ch);
        assert((32767 * ch) / ch == 32767) by {
            vstd::arithmetic::div_mod::lemma_div_multiples_vanish(32767, ch);
            assert(32767 * ch == ch * 32767) by (nonlinear_arith);
        }
        vstd::arithmetic::div_mod::lemma_div_pos_is_pos(sum, ch);
    } else {
        lemma_div_is_ordered(-sum, 32768 * ch, ch);
        assert((32768 * ch) / ch == 32768) by {
            vstd::arithmetic::div_mod::lemma_div_multiples_vanish(32768, ch);
            assert(32768 * ch == ch * 32768) by (nonlinear_arith);
        }
        vstd::arithmetic::div_mod::lemma_div_pos_is_pos(-sum, ch);
    }
}

/// Truncating division computed through nonnegative machine division.
fn tdiv_i64(a: i64, b: u32) -> (r: i64)
    requires
        1 <= b,
        -0x4000_0000_0000_0000 <= a <= 0x4000_0000_0000_0000,
    ensures
        r as int == tdiv(a as int, b as int),
        a >= 0 ==> 0 <= r <= a,
        a < 0 ==> a <= r <= 0,
{
    if a >= 0 {
        let q = (a as u64) / (b as u64);
        proof {
            vstd::arithmetic::div_mod::lemma_div_nonincreasing(a as int, b as int);
            vstd::arithmetic::div_mod::lemma_div_pos_is_pos(a as int, b as int);
        }
        q as i64
    } else {
        let m = ((-(a as i128)) as u64) / (b as u64);
        proof {
            vstd::arithmetic::div_mod::lemma_div_nonincreasing(-(a as int), b as int);
            vstd::arithmetic::div_mod::lemma_div_pos_is_pos(-(a as int), b as int);
        }
        -(m as i64)
    }
}

/// Saturate to the signed 16-bit range.
fn clamp_i64(v: i64) -> (r: i16)
    ensures
        r as int == clamp16(v as int),
{
    if v < -32768 {
        -32768
    } else if v > 32767 {
        32767
    } else {
        v as i16
    }
}

/// Down-mix an interleaved buffer to mono by averaging each frame.
pub fn downmix_to_mono(input: &PcmBuffer) -> (r: PcmBuffer)
    requires
        input.channels >= 1,
        input.sample_rate >= 1,
    ensures
        r.channels == 1,
        r.sample_rate == input.sample_rate,
        r.samples@ == mono_of(input.samples@, input.channels as int),
        r.wf(),
{
    let ch = input.channels as usize;
    let frames = input.samples.len() / ch;
    let mut out: Vec<i16> = Vec::new();
    let mut f: usize = 0;
    while f < frames
        invariant
            input.samples@.len() <= usize::MAX,
            frames == input.samples@.len() as int / ch as int,
            ch == input.channels as int,
            1 <= ch,
            f <= frames,
            out@.len() == f as int,
            forall|g: int| 0 <= g < f ==> out@[g] == mono_of(input.samples@, ch as int)[g],
        decreases frames - f,
    {
        proof {
            lemma_fundamental_div_mod(input.samples@.len() as int, ch as int);
            assert(f * ch + ch <= input.samples@.len()) by (nonlinear_arith)
                requires
                    f + 1 <= frames,
                    1 <= ch,
                    frames == input.samples@.len() as int / ch as int,
                    input.samples@.len() as int == ch as int * (input.samples@.len() as int
                        / ch as int) + input.samples@.len() as int % ch as int,
                    input.samples@.len() as int % ch as int >= 0;
        }
        let base = f * ch;
        let mut sum: i64 = 0;
        let mut c: usize = 0;
        while c < ch
            invariant
                input.samples@.len() <= usize::MAX,
                1 <= ch,
                c <= ch,
                base == f * ch,
                base + ch <= input.samples@.len(),
                sum as int == frame_sum(input.samples@, base as int, c as int),
                -32768 * (c as int) <= sum as int <= 32767 * (c as int),
                ch <= 65535,
            decreases ch - c,
        {
            let x = input.samples[base + c];
            proof {
                assert(-32768 * (c as int + 1) <= sum + x <= 32767 * (c as int + 1))
                    by (nonlinear_arith)
                    requires
                        -32768 * (c as int) <= sum as int <= 32767 * (c as int),
                        -32768 <= x as int <= 32767;
            }
            sum = sum + (x as i64);
            c += 1;
        }
        proof {
            lemma_frame_sum_bounds(input.samples@, base as int, ch as int);
            lemma_avg_range(sum as int, ch as int);
            assert(-32768 * (ch as int) >= -0x4000_0000_0000_0000) by (nonlinear_arith)
                requires 1 <= ch as int <= 65535;
            assert(32767 * (ch as int) <= 0x4000_0000_0000_0000) by (nonlinear_arith)
                requires 1 <= ch as int <= 65535;
        }
        let avg = tdiv_i64(sum, input.channels as u32);
        out.push(avg as i16);
        f += 1;
    }
    proof {
        assert(out@ =~= mono_of(input.samples@, input.channels as int));
    }
    PcmBuffer { samples: out, channels: 1, sample_rate: input.sample_rate }
}

/// For `k` below the converted length, the picked source index is in
/// range.
proof fn lemma_resample_index(n: int, rate: int, k: int)
    requires
        1 <= rate,
        0 <= n,
        0 <= k < (n * 16000) / rate,
    ensures
        0 <= (k * rate) / 16000 < n,
{
    let q = (n * 16000) / rate;
    lemma_fundamental_div_mod(n * 16000, rate);
    assert(n * 16000 >= 0) by (nonlinear_arith)
        requires n >= 0;
    lemma_mul_inequality(k + 1, q, rate);
    assert(q * rate <= n * 16000) by (nonlinear_arith)
        requires
            n * 16000 == rate * q + (n * 16000) % rate,
            (n * 16000) % rate >= 0;
    assert(k * rate + rate <= n * 16000) by (nonlinear_arith)
        requires (k + 1) * rate <= n * 16000;
    assert(n >= 1) by (nonlinear_arith)
        requires
            k * rate + rate <= n * 16000,
            k >= 0,
            rate >= 1;
    lemma_div_is_ordered(k * rate, n * 16000 - 1, 16000);
    lemma_fundamental_div_mod_converse(n * 16000 - 1, 16000, n - 1, 15999);
    assert(n * 16000 - 1 == 16000 * (n - 1) + 15999) by (nonlinear_arith);
    assert(k * rate >= 0) by (nonlinear_arith)
        requires k >= 0, rate >= 1;
    vstd::arithmetic::div_mod::lemma_div_pos_is_pos(k * rate, 16000);
}

/// Convert a mono buffer to the canonical 16 kHz rate by deterministic
/// sample picking.
pub fn resample_to_target(input: &PcmBuffer) -> (r: PcmBuffer)
    requires
        input.wf(),
        input.channels == 1,
        (input.samples@.len() as int) * 16000 / (input.sample_rate as int) <= usize::MAX,
    ensures
        r.channels == 1,
        r.sample_rate == 16000,
        r.samples@ == resampled(input.samples@, input.sample_rate as int, 16000),
        r.wf(),
{
    let n = input.samples.len();
    let rate = input.sample_rate;
    let out_len_wide: u128 = ((n as u128) * 16000) / (rate as u128);
    let out_len = out_len_wide as usize;
    let mut out: Vec<i16> = Vec::new();
    let mut k: usize = 0;
    while k < out_len
        invariant
            1 <= rate,
            rate == input.sample_rate,
            n == input.samples@.len(),
            n <= usize::MAX,
            out_len == (n as int * 16000) / (rate as int),
            k <= out_len,
            out@.len() == k as int,
            forall|j: int|
                0 <= j < k ==> out@[j] == resampled(
                    input.samples@,
                    rate as int,
                    16000,
                )[j],
        decreases out_len - k,
    {
        proof {
            assert((k as int) * (rate as int) <= 0x1_0000_0000_0000_0000_0000_0000)
                by (nonlinear_arith)
                requires
                    0 <= k as int <= 0xffff_ffff_ffff_ffff,
                    0 <= rate as int <= 0xffff_ffff;
            lemma_resample_index(n as int, rate as int, k as int);
        }
        let idx_wide: u128 = ((k as u128) * (rate as u128)) / 16000;
        let idx = idx_wide as usize;
        let x = input.samples[idx];
        out.push(x);
        k += 1;
    }
    proof {
        assert(out@ =~= resampled(input.samples@, input.sample_rate as int, 16000));
    }
    PcmBuffer { samples: out, channels: 1, sample_rate: 16000 }
}

/// Q16 low-pass coefficient, as executable arithmetic.
fn lp_coeff(fc: u32, rate: u32) -> (a: u32)
    requires
        1 <= rate,
    ensures
        a as int == lp_alpha(fc as int, rate as int),
        a <= 65536,
{
    let num: u64 = 6283u64 * (fc as u64);
    let den: u64 = 1000u64 * (rate as u64) + num;
    let wide: u128 = (65536u128 * (num as u128)) / (den as u128);
    proof {
        lemma_mul_inequality(num as int, den as int, 65536);
        lemma_div_is_ordered(65536 * (num as int), 65536 * (den as int), den as int);
        assert(num as int * 65536 == 65536 * (num as int)) by (nonlinear_arith);
        assert(den as int * 65536 == 65536 * (den as int)) by (nonlinear_arith);
        vstd::arithmetic::div_mod::lemma_div_multiples_vanish(65536, den as int);
        assert((den as int * 65536) / (den as int) == 65536);
        vstd::arithmetic::div_mod::lemma_div_pos_is_pos(65536 * (num as int), den as int);
    }
    wide as u32
}

/// Q16 high-pass coefficient, as executable arithmetic.
fn hp_coeff(fc: u32, rate: u32) -> (b: u32)
    requires
        1 <= rate,
    ensures
        b as int == hp_beta(fc as int, rate as int),
        b <= 65536,
{
    let num: u64 = 1000u64 * (rate as u64);
    let den: u64 = num + 6283u64 * (fc as u64);
    let wide: u128 = (65536u128 * (num as u128)) / (den as u128);
    proof {
        lemma_mul_inequality(num as int, den as int, 65536);
        lemma_div_is_ordered(65536 * (num as int), 65536 * (den as int), den as int);
        assert(num as int * 65536 == 65536 * (num as int)) by (nonlinear_arith);
        assert(den as int * 65536 == 65536 * (den as int)) by (nonlinear_arith);
        vstd::arithmetic::div_mod::lemma_div_multiples_vanish(65536, den as int);
        assert((den as int * 65536) / (den as int) == 65536);
        vstd::arithmetic::div_mod::lemma_div_pos_is_pos(65536 * (num as int), den as int);
    }
    wide as u32
}

/// Run the low-pass section over a mono sequence.
fn lp_filter(s: &Vec<i16>, alpha: u32) -> (r: Vec<i16>)
    requires
        alpha <= 65536,
    ensures
        r@ == lp_seq(s@, alpha as int),
{
    let mut out: Vec<i16> = Vec::new();
    let mut y: i64 = 0;
    let mut i: usize = 0;
    while i < s.len()
        invariant
            alpha <= 65536,
            i <= s@.len(),
            out@.len() == i as int,
            y as int == lp_state(s@, alpha as int, i as int),
            -32768 <= y <= 32767,
            forall|j: int| 0 <= j < i ==> out@[j] == lp_seq(s@, alpha as int)[j],
        decreases s@.len() - i,
    {
        let x = s[i] as i64;
        let d = x - y;
        proof {
            assert(-0x4000_0000_0000_0000 <= (alpha as int) * (d as int) <= 0x4000_0000_0000_0000)
                by (nonlinear_arith)
                requires
                    0 <= alpha as int <= 65536,
                    -65535 <= d as int <= 65535;
        }
        let prod = (alpha as i64) * d;
        let q = tdiv_i64(prod, 65536);
        let ynew = clamp_i64(y + q);
        out.push(ynew);
        proof {
            assert(ynew as int == lp_state(s@, alpha as int, i + 1));
        }
        y = ynew as i64;
        i += 1;
    }
    proof {
        assert(out@ =~= lp_seq(s@, alpha as int));
    }
    out
}

/// Run the high-pass section over a mono sequence.
fn hp_filter(s: &Vec<i16>, beta: u32) -> (r: Vec<i16>)
    requires
        beta <= 65536,
    ensures
        r@ == hp_seq(s@, beta as int),
{
    let mut out: Vec<i16> = Vec::new();
    let mut y: i64 = 0;
    let mut xprev: i64 = 0;
    let mut i: usize = 0;
    while i < s.len()
        invariant
            beta <= 65536,
            i <= s@.len(),
            out@.len() == i as int,
            y as int == hp_state(s@, beta as int, i as int),
            -32768 <= y <= 32767,
            xprev as int == if i == 0 {
                0
            } else {
                s@[i - 1] as int
            },
            forall|j: int| 0 <= j < i ==> out@[j] == hp_seq(s@, beta as int)[j],
        decreases s@.len() - i,
    {
        let x = s[i] as i64;
        let inner = y + x - xprev;
        proof {
            assert(-0x4000_0000_0000_0000 <= (beta as int) * (inner as int) <= 0x4000_0000_0000_0000)
                by (nonlinear_arith)
                requires
                    0 <= beta as int <= 65536,
                    -131071 <= inner as int <= 131071;
        }
        let prod = (beta as i64) * inner;
        let q = tdiv_i64(prod, 65536);
        let ynew = clamp_i64(q);
        out.push(ynew);
        proof {
            assert(ynew as int == hp_state(s@, beta as int, i + 1));
        }
        y = ynew as i64;
        xprev = x;
        i += 1;
    }
    proof {
        assert(out@ =~= hp_seq(s@, beta as int));
    }
    out
}

/// Band-pass filter a mono sequence with coefficients taken at `rate`.
pub fn band_pass(s: &Vec<i16>, low_pass_hz: u32, high_pass_hz: u32, rate: u32) -> (r: Vec<i16>)
    requires
        1 <= rate,
    ensures
        r@ == band_passed(s@, low_pass_hz as int, high_pass_hz as int, rate as int),
{
    let a = lp_coeff(low_pass_hz, rate);
    let b = hp_coeff(high_pass_hz, rate);
    let lp = lp_filter(s, a);
    hp_filter(&lp, b)
}

/// The full resampler/filter stage: down-mix to mono, convert to the
/// canonical 16 kHz rate, then band-pass filter. The result is always
/// tagged exactly one channel at 16 kHz, whatever the input layout.
pub fn resample_and_filter(input: &PcmBuffer, low_pass_hz: u32, high_pass_hz: u32) -> (r:
    PcmBuffer)
    requires
        input.wf(),
        (input.samples@.len() as int / input.channels as int) * 16000 / (
        input.sample_rate as int) <= usize::MAX,
    ensures
        r.channels == 1,
        r.sample_rate == 16000,
        r.samples@ == band_passed(
            resampled(
                mono_of(input.samples@, input.channels as int),
                input.sample_rate as int,
                16000,
            ),
            low_pass_hz as int,
            high_pass_hz as int,
            16000,
        ),
        r.wf(),
{
    let mono = downmix_to_mono(input);
    let converted = resample_to_target(&mono);
    let filtered = band_pass(&converted.samples, low_pass_hz, high_pass_hz, 16000);
    PcmBuffer { samples: filtered, channels: 1, sample_rate: 16000 }
}

} // verus!
