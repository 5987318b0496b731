//! Q16.16 fixed-point arithmetic: the number 1.0 is the integer 65536.
//! Division and rescaling truncate toward zero, like Rust's integer division.

use vstd::prelude::*;

verus! {

/// 1.0 in Q16.16.
pub const ONE: i64 = 65536;

/// Truncating (toward zero) integer division, the library's division semantics.
pub open spec fn tdiv(a: int, b: int) -> int {
    if a >= 0 {
        a / b
    } else {
        -((-a) / b)
    }
}

/// Rescale a doubled-precision product back to Q16.16.
pub open spec fn fq(a: int) -> int {
    tdiv(a, 65536)
}

/// Q16.16 multiplication.
pub open spec fn fmul(a: int, b: int) -> int {
    fq(a * b)
}

/// Clamp into the unit interval [0, 1.0].
pub open spec fn clamp01_spec(a: int) -> int {
    if a < 0 {
        0
    } else if a > 65536 {
        65536
    } else {
        a
    }
}

/// Clamp from below.
pub open spec fn clamp_min_spec(a: int, lo: int) -> int {
    if a < lo {
        lo
    } else {
        a
    }
}

/// Clamp from above.
pub open spec fn clamp_max_spec(a: int, hi: int) -> int {
    if a > hi {
        hi
    } else {
        a
    }
}

/// Linear interpolation from `u` toward `v` by the fraction `t` (Q16.16).
pub open spec fn lerp_spec(u: int, v: int, t: int) -> int {
    u + fmul(t, v - u)
}

/// Rescale an i64 by 65536, truncating toward zero.
pub fn scale16(p: i64) -> (r: i64)
    requires
        p > i64::MIN,
    ensures
        r == fq(p as int),
{
    if p >= 0 {
        ((p as u64) / 65536u64) as i64
    } else {
        let m: u64 = (-p) as u64;
        let q: u64 = m / 65536u64;
        -(q as i64)
    }
}

/// Q16.16 product of two bounded values.
pub fn mul_fp(a: i64, b: i64) -> (r: i64)
    requires
        -0x8000_0000 <= a <= 0x8000_0000,
        -0x8000_0000 <= b <= 0x8000_0000,
    ensures
        r == fmul(a as int, b as int),
{
    proof {
        assert(-0x4000_0000_0000_0000 <= a as int * b as int <= 0x4000_0000_0000_0000)
            by (nonlinear_arith)
            requires
                -0x8000_0000 <= a <= 0x8000_0000,
                -0x8000_0000 <= b <= 0x8000_0000,
        ;
    }
    let p: i64 = a * b;
    scale16(p)
}

/// Truncating division of a nonnegative value by a positive one.
pub fn div_nn(a: i64, b: i64) -> (r: i64)
    requires
        a >= 0,
        b >= 1,
    ensures
        r == tdiv(a as int, b as int),
        0 <= r <= a,
{
    ((a as u64) / (b as u64)) as i64
}

/// Truncating division of a bounded value of either sign by a positive one.
pub fn div_tz(a: i64, b: i64) -> (r: i64)
    requires
        a > i64::MIN,
        b >= 1,
    ensures
        r == tdiv(a as int, b as int),
        a >= 0 ==> 0 <= r <= a,
        a < 0 ==> a <= r <= 0,
{
    if a >= 0 {
        ((a as u64) / (b as u64)) as i64
    } else {
        let q: i64 = (((-a) as u64) / (b as u64)) as i64;
        -q
    }
}

/// Clamp into [0, 1.0].
pub fn clamp01(a: i64) -> (r: i64)
    ensures
        r == clamp01_spec(a as int),
        0 <= r <= ONE,
{
    if a < 0 {
        0
    } else if a > ONE {
        ONE
    } else {
        a
    }
}

/// Clamp from below.
pub fn clamp_min(a: i64, lo: i64) -> (r: i64)
    ensures
        r == clamp_min_spec(a as int, lo as int),
{
    if a < lo {
        lo
    } else {
        a
    }
}

/// Clamp from above.
pub fn clamp_max(a: i64, hi: i64) -> (r: i64)
    ensures
        r == clamp_max_spec(a as int, hi as int),
{
    if a > hi {
        hi
    } else {
        a
    }
}

/// Move `val` toward `goal` by at most `incr`, never overshooting.
pub open spec fn slide_towards_spec(val: int, goal: int, incr: int) -> int {
    if val > goal {
        clamp_min_spec(val - incr, goal)
    } else if val < goal {
        clamp_max_spec(val + incr, goal)
    } else {
        val
    }
}

/// Step `val` toward `goal` by `incr` without overshooting.
pub fn slide_towards(val: i64, goal: i64, incr: i64) -> (r: i64)
    requires
        0 <= incr,
        i64::MIN < val - incr,
        val + incr < i64::MAX,
    ensures
        r == slide_towards_spec(val as int, goal as int, incr as int),
{
    if val > goal {
        clamp_min(val - incr, goal)
    } else if val < goal {
        clamp_max(val + incr, goal)
    } else {
        val
    }
}

/// Interpolate between two bounded values; the result stays between them.
pub fn lerp_fp(u: i64, v: i64, t: i64) -> (r: i64)
    requires
        -0x4000_0000 <= u <= 0x4000_0000,
        -0x4000_0000 <= v <= 0x4000_0000,
        0 <= t <= 65536,
    ensures
        r == lerp_spec(u as int, v as int, t as int),
        u <= v ==> u <= r <= v,
        v <= u ==> v <= r <= u,
{
    let d: i64 = mul_fp(t, v - u);
    proof {
        let dd = (v - u) as int;
        if dd >= 0 {
            assert(0 <= t * dd <= 65536 * dd) by (nonlinear_arith)
                requires
                    0 <= t <= 65536,
                    dd >= 0,
            ;
            assert(t * dd / 65536 <= 65536 * dd / 65536) by {
                vstd::arithmetic::div_mod::lemma_div_is_ordered(
                    t * dd,
                    65536 * dd,
                    65536,
                );
            };
            assert(65536 * dd / 65536 == dd) by (nonlinear_arith);
        } else {
            let m = -dd;
            assert(0 <= t * m <= 65536 * m) by (nonlinear_arith)
                requires
                    0 <= t <= 65536,
                    m >= 0,
            ;
            assert(t * m / 65536 <= 65536 * m / 65536) by {
                vstd::arithmetic::div_mod::lemma_div_is_ordered(
                    t * m,
                    65536 * m,
                    65536,
                );
            };
            assert(65536 * m / 65536 == m) by (nonlinear_arith);
            assert(t * dd == -(t * m)) by (nonlinear_arith)
                requires
                    m == -dd,
            ;
        }
    }
    u + d
}

/// Integer square root: the greatest `r` with `r * r <= x`.
pub fn isqrt(x: u64) -> (r: u64)
    ensures
        r * r <= x,
        (r + 1) * (r + 1) > x,
        r <= 0xFFFF_FFFF,
{
    if x >= 0xFFFF_FFFE_0000_0001 {
        // 0xFFFF_FFFF squared is the largest square that fits.
        proof {
            assert(0xFFFF_FFFFu64 * 0xFFFF_FFFFu64 == 0xFFFF_FFFE_0000_0001) by (nonlinear_arith);
            assert(0x1_0000_0000u64 * 0x1_0000_0000u64 > x as int) by (nonlinear_arith)
                requires
                    x <= u64::MAX,
            ;
        }
        return 0xFFFF_FFFF;
    }
    let mut lo: u64 = 0;
    let mut hi: u64 = if x < 0xFFFF_FFFF { x + 1 } else { 0x1_0000_0000 };
    proof {
        assert(hi * hi > x) by (nonlinear_arith)
            requires
                (x < 0xFFFF_FFFF && hi == x + 1) || (hi == 0x1_0000_0000 && x
                    < 0xFFFF_FFFE_0000_0001),
        ;
    }
    while hi - lo > 1
        invariant
            lo < hi <= 0x1_0000_0000,
            lo * lo <= x,
            hi * hi > x,
        decreases hi - lo,
    {
        let mid: u64 = lo + (hi - lo) / 2;
        proof {
            assert(mid * mid <= 0xFFFF_FFFE_0000_0001) by (nonlinear_arith)
                requires
                    mid <= 0xFFFF_FFFF,
            ;
        }
        if mid * mid <= x {
            lo = mid;
        } else {
            hi = mid;
        }
    }
    lo
}

/// `tdiv` agrees with Euclidean division on nonnegative dividends.
pub proof fn lemma_tdiv_nonneg(a: int, b: int)
    requires
        a >= 0,
        b >= 1,
    ensures
        tdiv(a, b) == a / b,
        0 <= tdiv(a, b) <= a,
{
    assert(0 <= a / b <= a) by (nonlinear_arith)
        requires
            a >= 0,
            b >= 1,
    ;
}

/// Truncation toward zero never grows a value's magnitude.
pub proof fn lemma_fq_magnitude(a: int, bound: int)
    requires
        -bound * 65536 <= a <= bound * 65536,
        bound >= 0,
    ensures
        -bound <= fq(a) <= bound,
{
    if a >= 0 {
        assert(a / 65536 <= bound * 65536 / 65536) by {
            vstd::arithmetic::div_mod::lemma_div_is_ordered(a, bound * 65536, 65536);
        };
        assert(bound * 65536 / 65536 == bound) by (nonlinear_arith);
        assert(a / 65536 >= 0) by (nonlinear_arith)
            requires
                a >= 0,
        ;
    } else {
        let m = -a;
        assert(m / 65536 <= bound * 65536 / 65536) by {
            vstd::arithmetic::div_mod::lemma_div_is_ordered(m, bound * 65536, 65536);
        };
        assert(bound * 65536 / 65536 == bound) by (nonlinear_arith);
        assert(m / 65536 >= 0) by (nonlinear_arith)
            requires
                m >= 0,
        ;
    }
}

} // verus!
