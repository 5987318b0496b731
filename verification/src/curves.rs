//! Fixed-point curves: a sine table for the vibrato and tremolo waveforms,
//! and base-2 exponential and logarithm used by the tuning models. Each
//! routine's value is defined exactly by a spec function that mirrors its
//! bit-by-bit algorithm; range clamps are part of that definition.

use vstd::prelude::*;
use crate::fixed::{ONE, fq, clamp_min_spec, clamp_max_spec, scale16, clamp_min, clamp_max};

verus! {

/// Quarter-wave sine table: `sin(2*pi*k/64)` in Q16.16 for `k` in 0..=16.
pub open spec fn sine_q_spec(k: int) -> int {
    if k <= 0 {
        0
    } else if k == 1 {
        6424
    } else if k == 2 {
        12785
    } else if k == 3 {
        19024
    } else if k == 4 {
        25080
    } else if k == 5 {
        30893
    } else if k == 6 {
        36410
    } else if k == 7 {
        41576
    } else if k == 8 {
        46341
    } else if k == 9 {
        50660
    } else if k == 10 {
        54491
    } else if k == 11 {
        57798
    } else if k == 12 {
        60547
    } else if k == 13 {
        62714
    } else if k == 14 {
        64277
    } else if k == 15 {
        65220
    } else {
        65536
    }
}

/// One period of the sine, sampled on 64 slots, by quarter-wave symmetry.
pub open spec fn sine64_spec(i: int) -> int {
    if i <= 16 {
        sine_q_spec(i)
    } else if i <= 32 {
        sine_q_spec(32 - i)
    } else if i <= 48 {
        -sine_q_spec(i - 32)
    } else {
        -sine_q_spec(64 - i)
    }
}

fn sine_q(k: i64) -> (r: i64)
    requires
        0 <= k <= 16,
    ensures
        r == sine_q_spec(k as int),
        0 <= r <= ONE,
{
    if k <= 0 {
        0
    } else if k == 1 {
        6424
    } else if k == 2 {
        12785
    } else if k == 3 {
        19024
    } else if k == 4 {
        25080
    } else if k == 5 {
        30893
    } else if k == 6 {
        36410
    } else if k == 7 {
        41576
    } else if k == 8 {
        46341
    } else if k == 9 {
        50660
    } else if k == 10 {
        54491
    } else if k == 11 {
        57798
    } else if k == 12 {
        60547
    } else if k == 13 {
        62714
    } else if k == 14 {
        64277
    } else if k == 15 {
        65220
    } else {
        65536
    }
}

/// `sin(2*pi*pos)` for a phase `pos` in [0, 1) given in Q16.16, via the table.
pub open spec fn sine_wave_spec(pos: int) -> int {
    sine64_spec(tablestep(pos))
}

/// The table slot of a phase: 64 slots over one period.
pub open spec fn tablestep(pos: int) -> int {
    (pos * 64) / 65536
}

pub fn sine_wave(pos: i64) -> (r: i64)
    requires
        0 <= pos < 65536,
    ensures
        r == sine_wave_spec(pos as int),
        -ONE <= r <= ONE,
{
    let i: i64 = (pos * 64) / 65536;
    proof {
        assert(0 <= (pos * 64) / 65536 < 64) by (nonlinear_arith)
            requires
                0 <= pos < 65536,
        ;
    }
    if i <= 16 {
        sine_q(i)
    } else if i <= 32 {
        sine_q(32 - i)
    } else if i <= 48 {
        -sine_q(i - 32)
    } else {
        -sine_q(64 - i)
    }
}

/// The per-bit factors of the binary exponential: for a set bit worth
/// `half`/65536 of an exponent, the factor `2^(half/65536)` in Q16.16.
pub open spec fn exp2_c(half: int) -> int {
    if half == 32768 {
        92682
    } else if half == 16384 {
        77936
    } else if half == 8192 {
        71468
    } else if half == 4096 {
        68438
    } else if half == 2048 {
        66971
    } else if half == 1024 {
        66250
    } else if half == 512 {
        65892
    } else if half == 256 {
        65714
    } else if half == 128 {
        65625
    } else if half == 64 {
        65580
    } else if half == 32 {
        65558
    } else if half == 16 {
        65547
    } else if half == 8 {
        65542
    } else if half == 4 {
        65539
    } else if half == 2 {
        65537
    } else if half == 1 {
        65537
    } else {
        65536
    }
}

fn exp2_c_at(half: i64) -> (r: i64)
    ensures
        r == exp2_c(half as int),
        65536 <= r <= 92682,
{
    if half == 32768 {
        92682
    } else if half == 16384 {
        77936
    } else if half == 8192 {
        71468
    } else if half == 4096 {
        68438
    } else if half == 2048 {
        66971
    } else if half == 1024 {
        66250
    } else if half == 512 {
        65892
    } else if half == 256 {
        65714
    } else if half == 128 {
        65625
    } else if half == 64 {
        65580
    } else if half == 32 {
        65558
    } else if half == 16 {
        65547
    } else if half == 8 {
        65542
    } else if half == 4 {
        65539
    } else if half == 2 {
        65537
    } else if half == 1 {
        65537
    } else {
        65536
    }
}

/// `2^(f/65536)` in Q16.16 for a fractional exponent `f` in [0, 65536),
/// as the clamped product of the per-bit factors, highest bit first.
pub open spec fn exp2_frac_spec(rem: int, half: int, acc: int) -> int
    decreases half,
{
    if half <= 0 {
        acc
    } else {
        let acc2 = if rem / half >= 1 {
            clamp_max_spec(clamp_min_spec(fq(acc * exp2_c(half)), 65536), 131072)
        } else {
            acc
        };
        exp2_frac_spec(rem % half, half / 2, acc2)
    }
}

fn exp2_frac(f: i64) -> (r: i64)
    requires
        0 <= f < 65536,
    ensures
        r == exp2_frac_spec(f as int, 32768, 65536),
        65536 <= r <= 131072,
{
    let mut rem: i64 = f;
    let mut half: i64 = 32768;
    let mut acc: i64 = ONE;
    while half > 0
        invariant
            0 <= rem,
            0 <= half <= 32768,
            65536 <= acc <= 131072,
            exp2_frac_spec(f as int, 32768, 65536) == exp2_frac_spec(
                rem as int,
                half as int,
                acc as int,
            ),
        decreases half,
    {
        if rem / half >= 1 {
            let c: i64 = exp2_c_at(half);
            let p: i64 = scale16(acc * c);
            acc = clamp_max(clamp_min(p, 65536), 131072);
        }
        rem = rem % half;
        half = half / 2;
    }
    acc
}

/// Double `v` `n` times, capped so it stays representable.
pub open spec fn shift_up_spec(v: int, n: int) -> int
    decreases n,
{
    if n <= 0 {
        v
    } else {
        clamp_max_spec(shift_up_spec(v, n - 1) * 2, 0x4_0000_0000)
    }
}

/// Halve `v` `n` times, truncating.
pub open spec fn shift_down_spec(v: int, n: int) -> int
    decreases n,
{
    if n <= 0 {
        v
    } else {
        shift_down_spec(v, n - 1) / 2
    }
}

/// `2^(e/65536)` in Q16.16 for an exponent `e` of either sign; the binary
/// point of `e` splits it into a shift and a fractional product. Exponents
/// at or below -17 underflow to zero.
pub open spec fn exp2_spec(e: int) -> int {
    if e >= 0 {
        let n = clamp_max_spec(e / 65536, 17);
        shift_up_spec(exp2_frac_spec(e % 65536, 32768, 65536), n)
    } else if e <= -17 * 65536 {
        0
    } else {
        let q = (-e + 65535) / 65536;
        let f = q * 65536 + e;
        shift_down_spec(exp2_frac_spec(f, 32768, 65536), q)
    }
}

pub fn exp2_fp(e: i64) -> (r: i64)
    requires
        -0x8000_0000 <= e <= 0x8000_0000,
    ensures
        r == exp2_spec(e as int),
        0 <= r <= 0x4_0000_0000,
{
    if e >= 0 {
        let n: i64 = clamp_max(e / 65536, 17);
        let frac: i64 = exp2_frac(e % 65536);
        let mut r: i64 = frac;
        let mut i: i64 = 0;
        while i < n
            invariant
                0 <= i <= n <= 17,
                0 <= r <= 0x4_0000_0000,
                r == shift_up_spec(frac as int, i as int),
            decreases n - i,
        {
            r = clamp_max(r * 2, 0x4_0000_0000);
            i = i + 1;
        }
        r
    } else if e <= -17 * 65536 {
        0
    } else {
        let m: i64 = -e;
        let q: i64 = (m + 65535) / 65536;
        proof {
            assert(1 <= (m + 65535) / 65536 <= 17 && 0 <= ((m + 65535) / 65536) * 65536 - m
                < 65536) by (nonlinear_arith)
                requires
                    1 <= m < 17 * 65536,
            ;
        }
        let f: i64 = q * 65536 - m;
        let frac: i64 = exp2_frac(f);
        let mut r: i64 = frac;
        let mut i: i64 = 0;
        while i < q
            invariant
                0 <= i <= q <= 17,
                0 <= r <= 131072,
                r == shift_down_spec(frac as int, i as int),
            decreases q - i,
        {
            r = r / 2;
            i = i + 1;
        }
        r
    }
}

/// How many halvings bring `m` below 131072.
pub open spec fn log2_halvings(m: int) -> int
    decreases m,
{
    if m < 131072 {
        0
    } else {
        1 + log2_halvings(m / 2)
    }
}

/// The fractional bits of a base-2 logarithm of a mantissa in [1, 2),
/// by repeated squaring, highest bit first.
pub open spec fn log2_frac_spec(y: int, add: int, acc: int) -> int
    decreases add,
{
    if add <= 0 {
        acc
    } else {
        let y2 = fq(y * y);
        if y2 >= 131072 {
            log2_frac_spec(y2 / 2, add / 2, acc + add)
        } else {
            log2_frac_spec(y2, add / 2, acc)
        }
    }
}

fn log2_frac(y0: i64) -> (r: i64)
    requires
        65536 <= y0 < 131072,
    ensures
        r == log2_frac_spec(y0 as int, 32768, 0),
        0 <= r <= 65536,
{
    let mut y: i64 = y0;
    let mut add: i64 = 32768;
    let mut acc: i64 = 0;
    while add > 0
        invariant
            65536 <= y < 131072,
            0 <= add <= 32768,
            0 <= acc,
            acc + 2 * add <= 65536,
            log2_frac_spec(y0 as int, 32768, 0) == log2_frac_spec(
                y as int,
                add as int,
                acc as int,
            ),
        decreases add,
    {
        proof {
            assert(65536 * 65536 <= y * y < 131072 * 131072) by (nonlinear_arith)
                requires
                    65536 <= y < 131072,
            ;
            assert(y * y / 65536 >= (65536 * 65536) as int / 65536) by {
                vstd::arithmetic::div_mod::lemma_div_is_ordered(
                    (65536 * 65536) as int,
                    y * y,
                    65536,
                );
            };
            assert(y * y / 65536 <= (131072 * 131072) as int / 65536) by {
                vstd::arithmetic::div_mod::lemma_div_is_ordered(
                    y * y,
                    (131072 * 131072) as int,
                    65536,
                );
            };
        }
        let y2: i64 = scale16(y * y);
        if y2 >= 131072 {
            y = y2 / 2;
            acc = acc + add;
        } else {
            y = y2;
        }
        add = add / 2;
    }
    acc
}

/// Base-2 logarithm of `x`/65536 in Q16.16: scale `x` up by 65536, halve
/// it into the mantissa range [1, 2), then extract the fractional bits by
/// repeated squaring.
pub open spec fn log2_spec(x: int) -> int {
    let k = log2_halvings(x * 65536);
    let m = shift_down_spec(x * 65536, k);
    (k - 16) * 65536 + log2_frac_spec(m, 32768, 0)
}

pub fn log2_fp(x: i64) -> (r: i64)
    requires
        1 <= x <= 0x4_0000_0000,
    ensures
        r == log2_spec(x as int),
        -16 * 65536 <= r <= 20 * 65536,
{
    let x65536: i64 = x * 65536;
    proof {
        lemma_halvings_nonneg(x65536 as int);
        assert(p2i(35) == 0x8_0000_0000) by {
            reveal_with_fuel(p2i, 36);
        };
        lemma_halvings_bound(x65536 as int, 35);
    }
    let mut m: i64 = x65536;
    let mut k: i64 = 0;
    while m >= 131072
        invariant
            65536 <= m <= 0x4_0000_0000 * 65536,
            0 <= k <= 35,
            m == shift_down_spec(x65536 as int, k as int),
            log2_halvings(x65536 as int) == k + log2_halvings(m as int),
            log2_halvings(x65536 as int) <= 35,
        decreases m,
    {
        proof {
            lemma_halvings_nonneg((m / 2) as int);
        }
        m = m / 2;
        k = k + 1;
    }
    let frac: i64 = log2_frac(m);
    (k - 16) * 65536 + frac
}

/// Powers of two over the integers.
pub open spec fn p2i(j: int) -> int
    decreases j,
{
    if j <= 0 {
        1
    } else {
        2 * p2i(j - 1)
    }
}

/// Halving a number below `131072 * 2^j` into range takes at most `j` steps.
proof fn lemma_halvings_bound(m: int, j: int)
    requires
        j >= 0,
        m < 131072 * p2i(j),
    ensures
        log2_halvings(m) <= j,
    decreases m,
{
    if m >= 131072 {
        assert(p2i(j) >= 1) by {
            lemma_p2i_pos(j);
        };
        if j == 0 {
            assert(false);
        } else {
            assert(p2i(j) == 2 * p2i(j - 1));
            assert(m / 2 < 131072 * p2i(j - 1)) by (nonlinear_arith)
                requires
                    m < 131072 * (2 * p2i(j - 1)),
            ;
            lemma_halvings_bound(m / 2, j - 1);
        }
    }
}

proof fn lemma_p2i_pos(j: int)
    ensures
        p2i(j) >= 1,
    decreases j,
{
    if j > 0 {
        lemma_p2i_pos(j - 1);
    }
}

proof fn lemma_halvings_nonneg(m: int)
    ensures
        log2_halvings(m) >= 0,
    decreases m,
{
    if m >= 131072 {
        lemma_halvings_nonneg(m / 2);
    }
}

} // verus!
