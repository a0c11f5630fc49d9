//! Fixed-point scalar arithmetic for the rendering pipeline.
//!
//! A quantity is stored in an `i64` holding `65536` units per `1.0`
//! (a Q47.16 number).  Every operation saturates at `±i64::MAX`, so the
//! pipeline is total: malformed coordinates degrade to clamped values,
//! never to a panic.  The saturation range is symmetric so that negation
//! is exact on every representable value.

use vstd::prelude::*;

verus! {

/// Number of units per `1.0`.
pub const FX_ONE: i64 = 65536;
/// One half.
pub const FX_HALF: i64 = 32768;
/// Largest representable value; also serves as `+infinity` for depths.
pub const FX_MAX: i64 = i64::MAX;
/// Smallest representable value (symmetric with `FX_MAX`).
pub const FX_MIN: i64 = -i64::MAX;

/// Magnitude of an integer.
pub open spec fn abs_s(a: int) -> int {
    if a >= 0 {
        a
    } else {
        -a
    }
}

/// Clamp an unbounded integer into the symmetric representable range.
pub open spec fn sat64(x: int) -> int {
    if x > i64::MAX {
        i64::MAX as int
    } else if x < -(i64::MAX as int) {
        -(i64::MAX as int)
    } else {
        x
    }
}

/// Division rounding toward zero, for a positive divisor.
pub open spec fn div_down(a: int, b: int) -> int {
    if a >= 0 {
        a / b
    } else {
        -((-a) / b)
    }
}

/// Division rounding toward zero, for any nonzero divisor.
pub open spec fn div_trunc(a: int, b: int) -> int {
    if b > 0 {
        div_down(a, b)
    } else {
        div_down(-a, -b)
    }
}

/// Saturating fixed-point sum.
pub open spec fn fx_add_s(a: int, b: int) -> int {
    sat64(a + b)
}

/// Saturating fixed-point difference.
pub open spec fn fx_sub_s(a: int, b: int) -> int {
    sat64(a - b)
}

/// Saturating fixed-point negation.
pub open spec fn fx_neg_s(a: int) -> int {
    sat64(-a)
}

/// Saturating fixed-point product: `a * b / FX_ONE`, rounded toward zero.
pub open spec fn fx_mul_s(a: int, b: int) -> int {
    sat64(div_down(a * b, 65536))
}

/// Saturating fixed-point quotient: `a * FX_ONE / b`, rounded toward zero.
pub open spec fn fx_div_s(a: int, b: int) -> int {
    sat64(div_trunc(a * 65536, b))
}

/// The magnitude of an `i64`, as a `u64`.
pub fn fx_mag(a: i64) -> (r: u64)
    ensures
        r as int == abs_s(a as int),
{
    if a >= 0 {
        a as u64
    } else {
        (-(a as i128)) as u64
    }
}

/// Clamp an `i128` sum into the representable range.
fn sat_of_i128(s: i128) -> (r: i64)
    ensures
        r as int == sat64(s as int),
{
    if s > i64::MAX as i128 {
        i64::MAX
    } else if s < -(i64::MAX as i128) {
        -i64::MAX
    } else {
        s as i64
    }
}

/// Reassemble a sign and a magnitude, clamped into the representable range.
fn sat_of_mag(q: u128, neg: bool) -> (r: i64)
    ensures
        r as int == if neg {
            sat64(-(q as int))
        } else {
            sat64(q as int)
        },
{
    if neg {
        if q >= 0x8000_0000_0000_0000u128 {
            -i64::MAX
        } else {
            -(q as i64)
        }
    } else {
        if q >= 0x8000_0000_0000_0000u128 {
            i64::MAX
        } else {
            q as i64
        }
    }
}

/// Saturating addition.
pub fn fx_add(a: i64, b: i64) -> (r: i64)
    ensures
        r as int == fx_add_s(a as int, b as int),
{
    sat_of_i128(a as i128 + b as i128)
}

/// Saturating subtraction.
pub fn fx_sub(a: i64, b: i64) -> (r: i64)
    ensures
        r as int == fx_sub_s(a as int, b as int),
{
    sat_of_i128(a as i128 - b as i128)
}

/// Saturating negation.
pub fn fx_neg(a: i64) -> (r: i64)
    ensures
        r as int == fx_neg_s(a as int),
{
    sat_of_i128(-(a as i128))
}

/// Saturating fixed-point multiplication.
pub fn fx_mul(a: i64, b: i64) -> (r: i64)
    ensures
        r as int == fx_mul_s(a as int, b as int),
{
    let neg: bool = (a < 0) != (b < 0);
    let ma: u64 = fx_mag(a);
    let mb: u64 = fx_mag(b);
    proof {
        assert((ma as int) * (mb as int) < 0x1_0000_0000_0000_0000_0000_0000_0000_0000int)
            by (nonlinear_arith)
            requires
                ma <= 0x8000_0000_0000_0000u64,
                mb <= 0x8000_0000_0000_0000u64,
        ;
    }
    let p: u128 = (ma as u128) * (mb as u128);
    let q: u128 = p / 65536;
    proof {
        assert((ma as int) * (mb as int) == abs_s((a as int) * (b as int))
            && (((a as int) * (b as int) < 0) <==> (neg && p != 0))) by (nonlinear_arith)
            requires
                ma as int == abs_s(a as int),
                mb as int == abs_s(b as int),
                p == (ma as int) * (mb as int),
                neg == ((a < 0) != (b < 0)),
        ;
        assert(q == (p as int) / 65536);
        assert(div_down((a as int) * (b as int), 65536) == if neg {
            -(q as int)
        } else {
            q as int
        });
    }
    sat_of_mag(q, neg)
}

/// Saturating fixed-point division.  Callers guard the divisor themselves,
/// as the pipeline's explicit division-by-zero checks require.
pub fn fx_div(a: i64, b: i64) -> (r: i64)
    requires
        b != 0,
    ensures
        r as int == fx_div_s(a as int, b as int),
{
    let neg: bool = (a < 0) != (b < 0);
    let ma: u64 = fx_mag(a);
    let mb: u64 = fx_mag(b);
    let p: u128 = (ma as u128) * 65536;
    let q: u128 = p / (mb as u128);
    proof {
        assert((ma as int) * 65536 == abs_s((a as int) * 65536)
            && (((a as int) * 65536 < 0) <==> a < 0)) by (nonlinear_arith)
            requires
                ma as int == abs_s(a as int),
        ;
        assert(q == (p as int) / (mb as int));
        assert(div_trunc((a as int) * 65536, b as int) == if neg {
            -(q as int)
        } else {
            q as int
        }) by (nonlinear_arith)
            requires
                b != 0,
                ma as int == abs_s(a as int),
                mb as int == abs_s(b as int),
                p == (ma as int) * 65536,
                q == (p as int) / (mb as int),
                neg == ((a < 0) != (b < 0)),
        ;
    }
    sat_of_mag(q, neg)
}

/// The smaller of two values.
pub fn fx_min(a: i64, b: i64) -> (r: i64)
    ensures
        r == if a as int <= b as int {
            a
        } else {
            b
        },
{
    if a <= b {
        a
    } else {
        b
    }
}

/// The larger of two values.
pub fn fx_max(a: i64, b: i64) -> (r: i64)
    ensures
        r == if a as int >= b as int {
            a
        } else {
            b
        },
{
    if a >= b {
        a
    } else {
        b
    }
}

/// Euclidean remainder of `x` by a positive modulus (always in `[0, m)`).
pub fn fx_euc_mod(x: i64, m: u64) -> (r: i64)
    requires
        0 < m <= i64::MAX,
    ensures
        r as int == (x as int) % (m as int),
        0 <= r < m,
{
    proof {
        vstd::arithmetic::div_mod::lemma_mod_division_less_than_divisor(x as int, m as int);
    }
    if x >= 0 {
        let r: u64 = (x as u64) % m;
        proof {
            assert((x as u64) as int == x as int);
        }
        r as i64
    } else {
        let mx: u64 = fx_mag(x);
        let t: u64 = mx % m;
        proof {
            let q: int = mx as int / m as int;
            vstd::arithmetic::div_mod::lemma_fundamental_div_mod(mx as int, m as int);
            if t == 0 {
                assert(x as int == (-q) * (m as int) + 0) by (nonlinear_arith)
                    requires
                        x as int == -(mx as int),
                        mx as int == q * (m as int) + (t as int),
                        t == 0,
                ;
                vstd::arithmetic::div_mod::lemma_fundamental_div_mod_converse_mod(
                    x as int,
                    m as int,
                    -q,
                    0,
                );
            } else {
                assert(x as int == (-q - 1) * (m as int) + (m as int - t as int)) by (nonlinear_arith)
                    requires
                        x as int == -(mx as int),
                        mx as int == q * (m as int) + (t as int),
                ;
                vstd::arithmetic::div_mod::lemma_fundamental_div_mod_converse_mod(
                    x as int,
                    m as int,
                    -q - 1,
                    m as int - t as int,
                );
            }
        }
        if t == 0 {
            0
        } else {
            (m - t) as i64
        }
    }
}

/// Euclidean floor and remainder of a fixed-point value by `FX_ONE`:
/// the integer part below `x` and the fractional part in `[0, FX_ONE)`.
pub fn fx_floor_rem(x: i64) -> (fr: (i64, i64))
    ensures
        fr.0 as int == (x as int) / 65536,
        fr.1 as int == (x as int) % 65536,
        x as int == 65536 * (fr.0 as int) + (fr.1 as int),
{
    let rem: i64 = fx_euc_mod(x, 65536);
    proof {
        vstd::arithmetic::div_mod::lemma_fundamental_div_mod(x as int, 65536);
    }
    let fl: i64 = ((x as i128 - rem as i128) / 65536) as i64;
    proof {
        let q: int = (x as int) / 65536;
        assert((x as i128 - rem as i128) as int == 65536 * q);
        assert((65536 * q) / 65536 == q) by (nonlinear_arith);
    }
    (fl, rem)
}

/// The nonnegative square root of a fixed-point value, in fixed point:
/// the greatest `r` with `r * r <= a * FX_ONE`.
pub open spec fn fx_sqrt_s(a: int) -> int {
    choose|r: int| r >= 0 && #[trigger] (r * r) <= a * 65536 && (r + 1) * (r + 1) > a * 65536
}

/// Saturating fixed-point square root.
pub fn fx_sqrt(a: i64) -> (r: i64)
    requires
        a >= 0,
    ensures
        r as int == fx_sqrt_s(a as int),
        r >= 0,
        (r as int) * (r as int) <= (a as int) * 65536,
        ((r as int) + 1) * ((r as int) + 1) > (a as int) * 65536,
{
    let n: u128 = (a as u128) * 65536;
    let mut lo: u64 = 0;
    let mut hi: u64 = 0x1_0000_0000_0000;
    proof {
        assert((hi as int) * (hi as int) > n as int) by (nonlinear_arith)
            requires
                hi == 0x1_0000_0000_0000u64,
                n as int <= 0x7fff_ffff_ffff_ffffint * 65536,
        ;
    }
    while lo + 1 < hi
        invariant
            lo < hi,
            hi <= 0x1_0000_0000_0000u64,
            (lo as int) * (lo as int) <= n as int,
            (hi as int) * (hi as int) > n as int,
        decreases hi - lo,
    {
        let mid: u64 = lo + (hi - lo) / 2;
        proof {
            assert((mid as int) * (mid as int) < 0x1_0000_0000_0000_0000_0000_0000_0000_0000int)
                by (nonlinear_arith)
                requires
                    mid <= 0x1_0000_0000_0000u64,
            ;
        }
        let m2: u128 = (mid as u128) * (mid as u128);
        if m2 <= n {
            lo = mid;
        } else {
            hi = mid;
        }
    }
    let r: i64 = lo as i64;
    proof {
        let ri: int = r as int;
        let ni: int = (a as int) * 65536;
        assert(n as int == ni);
        assert(ri * ri <= ni && (ri + 1) * (ri + 1) > ni);
        assert(exists|s: int| s >= 0 && #[trigger] (s * s) <= ni && (s + 1) * (s + 1) > ni);
        let c: int = fx_sqrt_s(a as int);
        assert(c >= 0 && c * c <= ni && (c + 1) * (c + 1) > ni);
        assert(c == ri) by (nonlinear_arith)
            requires
                c >= 0,
                ri >= 0,
                c * c <= ni,
                (c + 1) * (c + 1) > ni,
                ri * ri <= ni,
                (ri + 1) * (ri + 1) > ni,
        ;
    }
    r
}

/// Clamp into the `i32` range (the saturating float-to-int conversion the
/// screen mapping relies on).
pub open spec fn clip_i32_s(v: int) -> int {
    if v > i32::MAX {
        i32::MAX as int
    } else if v < i32::MIN {
        i32::MIN as int
    } else {
        v
    }
}

/// Clamp a fixed-point-derived value into the `i32` range.
pub fn fx_clamp_i32(v: i64) -> (r: i32)
    ensures
        r as int == clip_i32_s(v as int),
{
    if v > i32::MAX as i64 {
        i32::MAX
    } else if v < i32::MIN as i64 {
        i32::MIN
    } else {
        v as i32
    }
}

/// A square is never negative, even after rounding and saturation.
pub proof fn lemma_fx_square_nonneg(a: int)
    ensures
        fx_mul_s(a, a) >= 0,
{
    assert(a * a >= 0) by (nonlinear_arith);
    assert(div_down(a * a, 65536) >= 0);
}

} // verus!
