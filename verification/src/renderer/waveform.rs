//! Splitting the audio sample window into the visualiser's waveform bands.
//!
//! The band edges are single-precision products: edge `k` of `n` bands is
//! `(k as f32 * (2048.0 / n as f32)) as usize`. The library holds no floating
//! point, so that arithmetic is stated and carried out on whole numbers: each
//! step rounds to 24 significant bits, to nearest, ties to even, as IEEE single
//! precision does, and a power of two keeps track of the binary point.

use vstd::arithmetic::power2::pow2;
use vstd::prelude::*;

verus! {

/// Samples in one analysis window.
pub const WAVEFORM_WINDOW: usize = 2048;

/// The number of binary digits of `x` (none for zero).
pub open spec fn bit_length(x: nat) -> nat
    decreases x,
{
    if x == 0 {
        0
    } else {
        1 + bit_length(x / 2)
    }
}

/// `x / d` rounded to the nearest whole number, a tie going to the even one.
pub open spec fn div_round_even(x: nat, d: nat) -> nat {
    let q = x / d;
    let r = x % d;
    if 2 * r > d || (2 * r == d && q % 2 == 1) {
        q + 1
    } else {
        q
    }
}

/// `x` rounded to 24 significant bits, to nearest, ties to even: the value
/// that converting `x` to `f32` gives.
pub open spec fn round_to_single(x: nat) -> nat {
    if bit_length(x) <= 24 {
        x
    } else {
        let unit = pow2((bit_length(x) - 24) as nat);
        div_round_even(x, unit) * unit
    }
}

/// For `n > 0`, the scale `s` at which `2^s / n` lies in `[2^23, 2^24)`.
pub open spec fn quotient_scale(n: nat) -> nat {
    let b = bit_length(n);
    if n == pow2((b - 1) as nat) {
        (22 + b) as nat
    } else {
        (23 + b) as nat
    }
}

/// The significand of `2048.0 / n` in single precision: the quotient is this
/// whole number times `2^(11 - quotient_scale(n))`.
pub open spec fn window_step_significand(n: nat) -> nat {
    div_round_even(pow2(quotient_scale(n)), n)
}

/// Edge `k` of `band_count` bands: `k as f32 * (2048.0 / band_count as f32)`
/// in single precision, truncated to a sample index (saturating, as a cast
/// to `usize` does).
pub open spec fn spec_waveform_cut(band_count: nat, k: nat) -> nat {
    let n = round_to_single(band_count);
    let s = quotient_scale(n);
    let product = round_to_single(round_to_single(k) * window_step_significand(n));
    let whole = product / pow2((s - 11) as nat);
    if whole <= usize::MAX {
        whole
    } else {
        usize::MAX as nat
    }
}

/// The sample range `[start, end)` of band `i` out of `band_count`: from edge
/// `i` to edge `i + 1`, the end held to the window.
pub open spec fn spec_waveform_range(band_count: nat, i: nat) -> (nat, nat) {
    let end = spec_waveform_cut(band_count, i + 1);
    (
        spec_waveform_cut(band_count, i),
        if end < WAVEFORM_WINDOW {
            end
        } else {
            WAVEFORM_WINDOW as nat
        },
    )
}

proof fn lemma_pow2_values()
    ensures
        pow2(0) == 1,
        pow2(11) == 0x800,
        pow2(24) == 0x100_0000,
        pow2(64) == 0x1_0000_0000_0000_0000,
        pow2(65) == 0x2_0000_0000_0000_0000,
        pow2(96) == 0x1_0000_0000_0000_0000_0000_0000,
        pow2(120) == 0x100_0000_0000_0000_0000_0000_0000_0000,
{
    vstd::arithmetic::power2::lemma2_to64();
    vstd::arithmetic::power2::lemma2_to64_rest();
    vstd::arithmetic::power2::lemma_pow2_adds(64, 1);
    vstd::arithmetic::power2::lemma_pow2_adds(64, 32);
    vstd::arithmetic::power2::lemma_pow2_adds(64, 56);
}

proof fn lemma_bit_length_bounds(x: nat)
    requires
        x > 0,
    ensures
        bit_length(x) >= 1,
        pow2((bit_length(x) - 1) as nat) <= x < pow2(bit_length(x)),
    decreases x,
{
    lemma_pow2_values();
    let b = bit_length(x);
    vstd::arithmetic::power2::lemma_pow2_unfold(b);
    if x >= 2 {
        lemma_bit_length_bounds(x / 2);
        vstd::arithmetic::power2::lemma_pow2_unfold((b - 1) as nat);
    } else {
        assert(bit_length(0) == 0);
    }
}

proof fn lemma_bit_length_at_most(x: nat, k: nat)
    requires
        x < pow2(k),
    ensures
        bit_length(x) <= k,
{
    if x > 0 {
        lemma_bit_length_bounds(x);
        let b = bit_length(x);
        if b > k {
            if (b - 1) as nat > k {
                vstd::arithmetic::power2::lemma_pow2_strictly_increases(k, (b - 1) as nat);
            }
        }
    }
}

proof fn lemma_bit_length_is(x: nat, k: nat)
    requires
        pow2(k) <= x < pow2(k + 1),
    ensures
        bit_length(x) == k + 1,
{
    vstd::arithmetic::power2::lemma_pow2_pos(k);
    lemma_bit_length_at_most(x, k + 1);
    lemma_bit_length_bounds(x);
    let b = bit_length(x);
    if b < k + 1 {
        if b < k {
            vstd::arithmetic::power2::lemma_pow2_strictly_increases(b, k);
        }
    }
}

proof fn lemma_bit_length_monotone(x: nat, y: nat)
    requires
        x <= y,
    ensures
        bit_length(x) <= bit_length(y),
{
    if y > 0 {
        lemma_bit_length_bounds(y);
        lemma_bit_length_at_most(x, bit_length(y));
    }
}

proof fn lemma_quotient_between(x: nat, u: nat, a: nat)
    requires
        u > 0,
    ensures
        a * u <= x ==> a <= x / u,
        x < a * u ==> x / u < a,
{
    vstd::arithmetic::div_mod::lemma_fundamental_div_mod(x as int, u as int);
    let q = x / u;
    let r = x % u;
    assert((a * u <= x ==> a <= q) && (x < a * u ==> q < a)) by (nonlinear_arith)
        requires
            x == u * q + r,
            0 <= r < u,
            u > 0,
    ;
}

proof fn lemma_round_within_binade(x: nat)
    requires
        x > 0,
    ensures
        pow2((bit_length(x) - 1) as nat) <= round_to_single(x) <= pow2(bit_length(x)),
{
    lemma_pow2_values();
    lemma_bit_length_bounds(x);
    let b = bit_length(x);
    if b > 24 {
        let t = (b - 24) as nat;
        let u = pow2(t);
        vstd::arithmetic::power2::lemma_pow2_pos(t);
        vstd::arithmetic::power2::lemma_pow2_adds(23, t);
        vstd::arithmetic::power2::lemma_pow2_adds(24, t);
        assert(t + 23 == b - 1 && t + 24 == b);
        lemma_quotient_between(x, u, pow2(23));
        lemma_quotient_between(x, u, pow2(24));
        vstd::arithmetic::power2::lemma_pow2_unfold(24);
        let d = div_round_even(x, u);
        assert(x / u <= d <= x / u + 1);
        assert(pow2(23) * u <= d * u <= pow2(24) * u) by (nonlinear_arith)
            requires
                pow2(23) <= d <= pow2(24),
                u > 0,
        ;
    }
}

proof fn lemma_div_round_even_monotone(x: nat, y: nat, d: nat)
    requires
        x <= y,
        d > 0,
    ensures
        div_round_even(x, d) <= div_round_even(y, d),
{
    vstd::arithmetic::div_mod::lemma_div_is_ordered(x as int, y as int, d as int);
    if x / d == y / d {
        vstd::arithmetic::div_mod::lemma_fundamental_div_mod(x as int, d as int);
        vstd::arithmetic::div_mod::lemma_fundamental_div_mod(y as int, d as int);
    }
}

proof fn lemma_round_monotone(x: nat, y: nat)
    requires
        x <= y,
    ensures
        round_to_single(x) <= round_to_single(y),
{
    lemma_bit_length_monotone(x, y);
    if x > 0 {
        let bx = bit_length(x);
        let by = bit_length(y);
        if bx == by {
            if bx > 24 {
                let u = pow2((bx - 24) as nat);
                vstd::arithmetic::power2::lemma_pow2_pos((bx - 24) as nat);
                lemma_div_round_even_monotone(x, y, u);
                let dx = div_round_even(x, u);
                let dy = div_round_even(y, u);
                assert(dx * u <= dy * u) by (nonlinear_arith)
                    requires
                        dx <= dy,
                        u > 0,
                ;
            }
        } else {
            lemma_round_within_binade(x);
            lemma_round_within_binade(y);
            if bx < (by - 1) as nat {
                vstd::arithmetic::power2::lemma_pow2_strictly_increases(bx, (by - 1) as nat);
            }
        }
    }
}

proof fn lemma_cut_monotone(band_count: nat, k: nat, l: nat)
    requires
        k <= l,
    ensures
        spec_waveform_cut(band_count, k) <= spec_waveform_cut(band_count, l),
{
    let n = round_to_single(band_count);
    let s = quotient_scale(n);
    let step = window_step_significand(n);
    lemma_round_monotone(k, l);
    let rk = round_to_single(k);
    let rl = round_to_single(l);
    assert(rk * step <= rl * step) by (nonlinear_arith)
        requires
            rk <= rl,
    ;
    lemma_round_monotone(rk * step, rl * step);
    vstd::arithmetic::power2::lemma_pow2_pos((s - 11) as nat);
    vstd::arithmetic::div_mod::lemma_div_is_ordered(
        round_to_single(rk * step) as int,
        round_to_single(rl * step) as int,
        pow2((s - 11) as nat) as int,
    );
}

proof fn lemma_last_cut_in_window(band_count: nat)
    requires
        band_count > 0,
    ensures
        spec_waveform_cut(band_count, band_count) <= WAVEFORM_WINDOW,
{
    lemma_pow2_values();
    let n = round_to_single(band_count);
    lemma_round_within_binade(band_count);
    vstd::arithmetic::power2::lemma_pow2_pos((bit_length(band_count) - 1) as nat);
    lemma_bit_length_bounds(n);
    let b = bit_length(n);
    let s = quotient_scale(n);
    let e = (s - 23) as nat;
    let big = pow2(s);
    let small = pow2(e);
    let unit = pow2((s - 11) as nat);
    // The step's significand overshoots `2^s / n` by at most half of `n`.
    let q = big / n;
    let r = big % n;
    vstd::arithmetic::div_mod::lemma_fundamental_div_mod(big as int, n as int);
    let step = window_step_significand(n);
    assert(step == q || (step == q + 1 && 2 * r >= n));
    assert(n * step <= big + (n - r)) by (nonlinear_arith)
        requires
            big == n * q + r,
            0 <= r < n,
            step == q || step == q + 1,
    ;
    assert(step == q ==> n * step <= big) by (nonlinear_arith)
        requires
            big == n * q + r,
            0 <= r,
    ;
    // Half of `n` is below `2^(b-1)`, which is at most `2^(s-23)`.
    vstd::arithmetic::power2::lemma_pow2_unfold(b);
    let below: nat = (b - 1) as nat;
    if below < e {
        vstd::arithmetic::power2::lemma_pow2_strictly_increases(below, e);
    }
    let top = big + small;
    assert(n * step <= top);
    // `top` is a single-precision value: `(2^23 + 1) * 2^(s-23)`.
    vstd::arithmetic::power2::lemma_pow2_adds(23, e);
    vstd::arithmetic::power2::lemma_pow2_unfold(s + 1);
    vstd::arithmetic::power2::lemma_pow2_strictly_increases(e, s);
    lemma_bit_length_is(top, s);
    assert((bit_length(top) - 24) as nat == e);
    vstd::arithmetic::power2::lemma_pow2_pos(e);
    assert(top == (pow2(23) + 1) * small) by (nonlinear_arith)
        requires
            top == big + small,
            big == pow2(23) * small,
    ;
    vstd::arithmetic::div_mod::lemma_fundamental_div_mod_converse(
        top as int,
        small as int,
        (pow2(23) + 1) as int,
        0,
    );
    assert(div_round_even(top, small) == pow2(23) + 1);
    assert(round_to_single(top) == top);
    lemma_round_monotone(round_to_single(band_count) * step, top);
    // And `top` truncates to the window's end.
    vstd::arithmetic::power2::lemma_pow2_adds(11, (s - 11) as nat);
    vstd::arithmetic::power2::lemma_pow2_strictly_increases(e, (s - 11) as nat);
    vstd::arithmetic::power2::lemma_pow2_pos((s - 11) as nat);
    assert(top < 2049 * unit);
    lemma_quotient_between(top, unit, 2049);
    vstd::arithmetic::div_mod::lemma_div_is_ordered(
        round_to_single(n * step) as int,
        top as int,
        unit as int,
    );
}

/// `2^e` as a machine integer.
fn pow2_u128(e: u32) -> (p: u128)
    requires
        e <= 120,
    ensures
        p as nat == pow2(e as nat),
        p > 0,
{
    proof {
        lemma_pow2_values();
    }
    let mut p: u128 = 1;
    let mut j: u32 = 0;
    while j < e
        invariant
            j <= e,
            e <= 120,
            p as nat == pow2(j as nat),
            pow2(120) == 0x100_0000_0000_0000_0000_0000_0000_0000,
        decreases e - j,
    {
        proof {
            vstd::arithmetic::power2::lemma_pow2_unfold((j + 1) as nat);
            if j + 1 < 120 {
                vstd::arithmetic::power2::lemma_pow2_strictly_increases((j + 1) as nat, 120);
            }
        }
        p = p * 2;
        j = j + 1;
    }
    proof {
        vstd::arithmetic::power2::lemma_pow2_pos(e as nat);
    }
    p
}

/// The number of binary digits of `x`.
fn bit_length_u128(x: u128) -> (b: u32)
    requires
        x < 0x1_0000_0000_0000_0000_0000_0000,
    ensures
        b as nat == bit_length(x as nat),
        b <= 96,
{
    proof {
        lemma_pow2_values();
        lemma_bit_length_at_most(x as nat, 96);
    }
    let mut y: u128 = x;
    let mut b: u32 = 0;
    while y > 0
        invariant
            b + bit_length(y as nat) == bit_length(x as nat),
            bit_length(x as nat) <= 96,
        decreases y,
    {
        y = y / 2;
        b = b + 1;
    }
    b
}

/// `x` rounded to single precision.
fn round_to_single_u128(x: u128) -> (r: u128)
    requires
        x < 0x1_0000_0000_0000_0000_0000_0000,
    ensures
        r as nat == round_to_single(x as nat),
        r <= 2 * x,
        x > 0 ==> r > 0,
{
    let b = bit_length_u128(x);
    if b <= 24 {
        return x;
    }
    let t: u32 = b - 24;
    let unit = pow2_u128(t);
    proof {
        lemma_bit_length_bounds(x as nat);
        if t < b - 1 {
            vstd::arithmetic::power2::lemma_pow2_strictly_increases(t as nat, (b - 1) as nat);
        }
        assert(unit <= x);
    }
    let q = x / unit;
    let rem = x % unit;
    let up: bool = 2 * rem > unit || (2 * rem == unit && q % 2 == 1);
    let q2: u128 = if up {
        q + 1
    } else {
        q
    };
    proof {
        vstd::arithmetic::div_mod::lemma_fundamental_div_mod(x as int, unit as int);
        assert(q >= 1 && q2 * unit <= q * unit + unit && q * unit <= x && q2 * unit > 0)
            by (nonlinear_arith)
            requires
                x == unit * q + rem,
                0 <= rem < unit,
                unit <= x,
                q <= q2 <= q + 1,
        ;
    }
    q2 * unit
}

/// Edge at position `k`, given the step's significand and the unit that
/// places its binary point.
fn waveform_cut_at(k: usize, step: u128, unit: u128) -> (c: usize)
    requires
        step <= 0x100_0001,
        unit > 0,
    ensures
        c as nat == ({
            let whole = round_to_single(round_to_single(k as nat) * step as nat) / (unit as nat);
            if whole <= usize::MAX {
                whole
            } else {
                usize::MAX as nat
            }
        }),
{
    let kk = round_to_single_u128(k as u128);
    assert(kk * step < 0x1_0000_0000_0000_0000_0000_0000) by (nonlinear_arith)
        requires
            kk <= 2 * k,
            k <= 0xffff_ffff_ffff_ffff,
            step <= 0x100_0001,
    ;
    let product: u128 = kk * step;
    let rounded = round_to_single_u128(product);
    let whole = rounded / unit;
    if whole > usize::MAX as u128 {
        usize::MAX
    } else {
        whole as usize
    }
}

/// One `(start, end)` sample range per band, in band order.
pub fn build_waveform_bin_ranges(band_count: usize) -> (r: Vec<(usize, usize)>)
    ensures
        r@.len() == band_count,
        forall|i: int|
            0 <= i < band_count ==> (#[trigger] r@[i]).0 == spec_waveform_range(
                band_count as nat,
                i as nat,
            ).0 && r@[i].1 == spec_waveform_range(band_count as nat, i as nat).1,
{
    let mut r: Vec<(usize, usize)> = Vec::new();
    if band_count == 0 {
        return r;
    }
    proof {
        lemma_pow2_values();
    }
    let n: u128 = round_to_single_u128(band_count as u128);
    proof {
        lemma_bit_length_at_most(n as nat, 65);
        lemma_bit_length_bounds(n as nat);
    }
    let b: u32 = bit_length_u128(n);
    let lowest: u128 = pow2_u128(b - 1);
    let s: u32 = if n == lowest {
        22 + b
    } else {
        23 + b
    };
    let scaled: u128 = pow2_u128(s);
    let q: u128 = scaled / n;
    let rem: u128 = scaled % n;
    let up: bool = 2 * rem > n || (2 * rem == n && q % 2 == 1);
    proof {
        let lo = (b - 1) as nat;
        vstd::arithmetic::div_mod::lemma_div_is_ordered_by_denominator(
            scaled as int,
            lowest as int,
            n as int,
        );
        vstd::arithmetic::power2::lemma_pow2_subtracts(lo, s as nat);
        let gap: nat = (s - lo) as nat;
        if gap < 24 {
            vstd::arithmetic::power2::lemma_pow2_strictly_increases(gap, 24);
        }
        assert(q <= 0x100_0000);
    }
    let step: u128 = if up {
        q + 1
    } else {
        q
    };
    let unit: u128 = pow2_u128(s - 11);
    let mut i: usize = 0;
    while i < band_count
        invariant
            i <= band_count,
            n as nat == round_to_single(band_count as nat),
            s as nat == quotient_scale(n as nat),
            s >= 23,
            step as nat == window_step_significand(n as nat),
            step <= 0x100_0001,
            unit as nat == pow2((s - 11) as nat),
            unit > 0,
            r@.len() == i,
            forall|k: int|
                0 <= k < i ==> (#[trigger] r@[k]).0 == spec_waveform_range(
                    band_count as nat,
                    k as nat,
                ).0 && r@[k].1 == spec_waveform_range(band_count as nat, k as nat).1,
        decreases band_count - i,
    {
        let start = waveform_cut_at(i, step, unit);
        let end = waveform_cut_at(i + 1, step, unit);
        let end_held: usize = if end < WAVEFORM_WINDOW {
            end
        } else {
            WAVEFORM_WINDOW
        };
        r.push((start, end_held));
        i = i + 1;
    }
    r
}

/// The bands tile the window: the first begins at sample 0, each lies within
/// the window and is not reversed, and each ends where the next begins.
pub proof fn waveform_bands_tile_the_window(band_count: nat, i: nat)
    requires
        i < band_count,
    ensures
        spec_waveform_range(band_count, 0).0 == 0,
        spec_waveform_range(band_count, i).0 <= spec_waveform_range(band_count, i).1
            <= WAVEFORM_WINDOW,
        i + 1 < band_count ==> spec_waveform_range(band_count, i).1 == spec_waveform_range(
            band_count,
            i + 1,
        ).0,
{
    lemma_pow2_values();
    assert(bit_length(0) == 0);
    let n = round_to_single(band_count);
    let s = quotient_scale(n);
    assert(round_to_single(0) == 0);
    assert(0 * window_step_significand(n) == 0);
    vstd::arithmetic::power2::lemma_pow2_pos((s - 11) as nat);
    assert(0nat / pow2((s - 11) as nat) == 0);
    lemma_last_cut_in_window(band_count);
    lemma_cut_monotone(band_count, i, i + 1);
    lemma_cut_monotone(band_count, i + 1, band_count);
    lemma_cut_monotone(band_count, i, band_count);
}

} // verus!
