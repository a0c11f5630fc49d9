//! Fixed-point approximations of the transcendental functions the shader
//! stages use: sine, cosine, tangent, arc tangent, a Gaussian-style decaying
//! exponential, and a seeded lattice noise field.
//!
//! Each executable function returns exactly the value of its spec mirror, so
//! every shader built on top of them is a pure function of its inputs.

use vstd::prelude::*;
use crate::fx::{
    FX_ONE, FX_MAX, div_down, div_trunc, fx_add_s, fx_sub_s, fx_neg_s, fx_mul_s, fx_div_s,
    fx_add, fx_sub, fx_neg, fx_mul, fx_div, fx_euc_mod, fx_floor_rem, lemma_fx_square_nonneg,
};

verus! {

/// Half a turn.
pub const FX_PI: i64 = 205887;
/// A full turn.
pub const FX_TWO_PI: i64 = 411775;
/// A quarter turn.
pub const FX_HALF_PI: i64 = 102944;
/// `pi * pi`, the denominator of the sine parabola.
pub const FX_PI_SQ: i64 = 646814;

/// A product of nonnegative factors stays nonnegative after rounding.
pub proof fn lemma_fx_mul_nonneg(a: int, b: int)
    requires
        a >= 0,
        b >= 0,
    ensures
        fx_mul_s(a, b) >= 0,
{
    assert(a * b >= 0) by (nonlinear_arith)
        requires
            a >= 0,
            b >= 0,
    ;
    assert(div_down(a * b, 65536) >= 0);
}

/// A quotient of a nonnegative value by a positive one stays nonnegative.
pub proof fn lemma_fx_div_nonneg(a: int, b: int)
    requires
        a >= 0,
        b > 0,
    ensures
        fx_div_s(a, b) >= 0,
{
    assert(div_trunc(a * 65536, b) >= 0);
}

/// Sine over one half-turn, `x` in `[0, FX_PI]`: the parabola
/// `4 x (pi - x) / pi^2` sharpened by the correction `0.775 p + 0.225 p^2`.
pub open spec fn sin_arc_s(x: int) -> int {
    let p = fx_div_s(fx_mul_s(262144, fx_mul_s(x, 205887 - x)), 646814);
    fx_add_s(fx_mul_s(50790, p), fx_mul_s(14746, fx_mul_s(p, p)))
}

/// Sine of a fixed-point angle in radians.
pub open spec fn fx_sin_s(x: int) -> int {
    let w = x % 411775;
    if w < 205887 {
        sin_arc_s(w)
    } else {
        fx_neg_s(sin_arc_s(w - 205887))
    }
}

/// Cosine of a fixed-point angle in radians.
pub open spec fn fx_cos_s(x: int) -> int {
    fx_sin_s(fx_add_s(x, 102944))
}

/// Tangent of a fixed-point angle; saturates where the cosine rounds to zero.
pub open spec fn fx_tan_s(x: int) -> int {
    let c = fx_cos_s(x);
    if c == 0 {
        i64::MAX as int
    } else {
        fx_div_s(fx_sin_s(x), c)
    }
}

/// Arc tangent: `x / (1 + 0.28 x^2)` on `[-1, 1]`, folded against a quarter
/// turn outside that interval.
pub open spec fn fx_atan_s(x: int) -> int {
    if -65536 <= x && x <= 65536 {
        fx_div_s(x, fx_add_s(65536, fx_mul_s(18350, fx_mul_s(x, x))))
    } else if x > 0 {
        fx_sub_s(102944, fx_div_s(x, fx_add_s(fx_mul_s(x, x), 18350)))
    } else {
        fx_sub_s(-102944, fx_div_s(x, fx_add_s(fx_mul_s(x, x), 18350)))
    }
}

/// Decaying exponential `e^-x` for `x >= 0`, as the reciprocal of the series
/// `1 + x + x^2/2 + x^3/6`.
pub open spec fn fx_exp_neg_s(x: int) -> int {
    let t2 = fx_mul_s(x, x);
    let t3 = fx_mul_s(t2, x);
    let den = fx_add_s(fx_add_s(fx_add_s(65536, x), fx_div_s(t2, 131072)), fx_div_s(t3, 393216));
    fx_div_s(65536, den)
}

fn sin_arc(x: i64) -> (r: i64)
    requires
        0 <= x <= 205888,
    ensures
        r as int == sin_arc_s(x as int),
{
    let p: i64 = fx_div(fx_mul(262144, fx_mul(x, FX_PI - x)), FX_PI_SQ);
    fx_add(fx_mul(50790, p), fx_mul(14746, fx_mul(p, p)))
}

/// Sine of a fixed-point angle in radians.
pub fn fx_sin(x: i64) -> (r: i64)
    ensures
        r as int == fx_sin_s(x as int),
{
    let w: i64 = fx_euc_mod(x, 411775);
    if w < FX_PI {
        sin_arc(w)
    } else {
        fx_neg(sin_arc(w - FX_PI))
    }
}

/// Cosine of a fixed-point angle in radians.
pub fn fx_cos(x: i64) -> (r: i64)
    ensures
        r as int == fx_cos_s(x as int),
{
    fx_sin(fx_add(x, FX_HALF_PI))
}

/// Tangent of a fixed-point angle; saturates where the cosine rounds to zero.
pub fn fx_tan(x: i64) -> (r: i64)
    ensures
        r as int == fx_tan_s(x as int),
{
    let c: i64 = fx_cos(x);
    if c == 0 {
        FX_MAX
    } else {
        fx_div(fx_sin(x), c)
    }
}

/// Arc tangent of a fixed-point value.
pub fn fx_atan(x: i64) -> (r: i64)
    ensures
        r as int == fx_atan_s(x as int),
{
    let x2: i64 = fx_mul(x, x);
    proof {
        lemma_fx_square_nonneg(x as int);
    }
    if -FX_ONE <= x && x <= FX_ONE {
        proof {
            lemma_fx_mul_nonneg(18350, x2 as int);
        }
        let d: i64 = fx_add(FX_ONE, fx_mul(18350, x2));
        fx_div(x, d)
    } else if x > 0 {
        let d: i64 = fx_add(x2, 18350);
        fx_sub(FX_HALF_PI, fx_div(x, d))
    } else {
        let d: i64 = fx_add(x2, 18350);
        fx_sub(-FX_HALF_PI, fx_div(x, d))
    }
}

/// Decaying exponential `e^-x` for a nonnegative argument.
pub fn fx_exp_neg(x: i64) -> (r: i64)
    requires
        x >= 0,
    ensures
        r as int == fx_exp_neg_s(x as int),
{
    let t2: i64 = fx_mul(x, x);
    let t3: i64 = fx_mul(t2, x);
    proof {
        lemma_fx_square_nonneg(x as int);
        lemma_fx_mul_nonneg(t2 as int, x as int);
        lemma_fx_div_nonneg(t2 as int, 131072);
        lemma_fx_div_nonneg(t3 as int, 393216);
    }
    let den: i64 = fx_add(fx_add(fx_add(FX_ONE, x), fx_div(t2, 131072)), fx_div(t3, 393216));
    fx_div(FX_ONE, den)
}

/// One round of 64-bit avalanche mixing (xor-shift and a spreading multiply).
pub open spec fn mix64_s(h: u64) -> u64 {
    let a = h ^ (h >> 33u64);
    let b = (((a as int) * 0xff51afd7ed558ccdint) % 0x1_0000_0000_0000_0000int) as u64;
    b ^ (b >> 33u64)
}

/// One round of 64-bit avalanche mixing.
pub fn mix64(h: u64) -> (r: u64)
    ensures
        r == mix64_s(h),
{
    let a: u64 = h ^ (h >> 33u64);
    proof {
        assert((a as int) * 0xff51afd7ed558ccdint
            < 0x1_0000_0000_0000_0000_0000_0000_0000_0000int) by (nonlinear_arith)
            requires
                a <= 0xffff_ffff_ffff_ffffu64,
        ;
        assert((a as int) * 0xff51afd7ed558ccdint >= 0) by (nonlinear_arith)
            requires
                a >= 0u64,
        ;
    }
    let p: u128 = (a as u128) * 0xff51afd7ed558ccdu128;
    let b: u64 = (p % 0x1_0000_0000_0000_0000u128) as u64;
    b ^ (b >> 33u64)
}

/// The lattice value in `[0, FX_ONE]` that the noise field hashes out of a
/// corner's integer coordinates and the seed.
pub open spec fn noise_corner_s(seed: u64, xi: u64, yi: u64, zi: u64) -> int {
    (mix64_s(mix64_s(mix64_s(mix64_s(seed) ^ xi) ^ yi) ^ zi) % 65537u64) as int
}

fn noise_corner(seed: u64, xi: u64, yi: u64, zi: u64) -> (r: i64)
    ensures
        r as int == noise_corner_s(seed, xi, yi, zi),
        0 <= r <= 65536,
{
    let h: u64 = mix64(mix64(mix64(mix64(seed) ^ xi) ^ yi) ^ zi) % 65537u64;
    h as i64
}

/// Linear interpolation `a + (b - a) * t`.
pub open spec fn fx_lerp_s(a: int, b: int, t: int) -> int {
    fx_add_s(a, fx_mul_s(fx_sub_s(b, a), t))
}

/// Linear interpolation `a + (b - a) * t`.
pub fn fx_lerp(a: i64, b: i64, t: i64) -> (r: i64)
    ensures
        r as int == fx_lerp_s(a as int, b as int, t as int),
{
    fx_add(a, fx_mul(fx_sub(b, a), t))
}

/// A deterministic, seeded noise field over fixed-point space: the value at
/// a point interpolates the hashed values of its surrounding lattice cell.
/// The same seed and coordinates give the same value on every call.
pub open spec fn fx_noise3_s(seed: u64, x: int, y: int, z: int) -> int {
    let xf = x / 65536;
    let yf = y / 65536;
    let zf = z / 65536;
    let xr = x % 65536;
    let yr = y % 65536;
    let zr = z % 65536;
    let xi = (xf as i64) as u64;
    let yi = (yf as i64) as u64;
    let zi = (zf as i64) as u64;
    let xj = ((xf + 1) as i64) as u64;
    let yj = ((yf + 1) as i64) as u64;
    let zj = ((zf + 1) as i64) as u64;
    let x00 = fx_lerp_s(noise_corner_s(seed, xi, yi, zi), noise_corner_s(seed, xj, yi, zi), xr);
    let x10 = fx_lerp_s(noise_corner_s(seed, xi, yj, zi), noise_corner_s(seed, xj, yj, zi), xr);
    let x01 = fx_lerp_s(noise_corner_s(seed, xi, yi, zj), noise_corner_s(seed, xj, yi, zj), xr);
    let x11 = fx_lerp_s(noise_corner_s(seed, xi, yj, zj), noise_corner_s(seed, xj, yj, zj), xr);
    let y0 = fx_lerp_s(x00, x10, yr);
    let y1 = fx_lerp_s(x01, x11, yr);
    fx_lerp_s(y0, y1, zr)
}

/// Sample the seeded noise field at a fixed-point position.
pub fn fx_noise3(seed: u64, x: i64, y: i64, z: i64) -> (r: i64)
    ensures
        r as int == fx_noise3_s(seed, x as int, y as int, z as int),
{
    let xfr: (i64, i64) = fx_floor_rem(x);
    let yfr: (i64, i64) = fx_floor_rem(y);
    let zfr: (i64, i64) = fx_floor_rem(z);
    let xi: u64 = #[verifier::truncate] (xfr.0 as u64);
    let yi: u64 = #[verifier::truncate] (yfr.0 as u64);
    let zi: u64 = #[verifier::truncate] (zfr.0 as u64);
    let xj: u64 = #[verifier::truncate] ((xfr.0 + 1) as u64);
    let yj: u64 = #[verifier::truncate] ((yfr.0 + 1) as u64);
    let zj: u64 = #[verifier::truncate] ((zfr.0 + 1) as u64);
    let c000: i64 = noise_corner(seed, xi, yi, zi);
    let c100: i64 = noise_corner(seed, xj, yi, zi);
    let c010: i64 = noise_corner(seed, xi, yj, zi);
    let c110: i64 = noise_corner(seed, xj, yj, zi);
    let c001: i64 = noise_corner(seed, xi, yi, zj);
    let c101: i64 = noise_corner(seed, xj, yi, zj);
    let c011: i64 = noise_corner(seed, xi, yj, zj);
    let c111: i64 = noise_corner(seed, xj, yj, zj);
    let x00: i64 = fx_lerp(c000, c100, xfr.1);
    let x10: i64 = fx_lerp(c010, c110, xfr.1);
    let x01: i64 = fx_lerp(c001, c101, xfr.1);
    let x11: i64 = fx_lerp(c011, c111, xfr.1);
    let y0: i64 = fx_lerp(x00, x10, yfr.1);
    let y1: i64 = fx_lerp(x01, x11, yfr.1);
    fx_lerp(y0, y1, zfr.1)
}

} // verus!
