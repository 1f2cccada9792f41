//! Fixed-point scalar arithmetic.
//!
//! A fixed-point value `x: i64` stands for the real number `x / FX_ONE`.
//! Multiplication of two fixed-point values therefore rescales the integer
//! product by `FX_ONE`, truncating toward zero, exactly as `fx_mul_spec`
//! says.

use vstd::prelude::*;

verus! {

/// Number of integer units in 1.0: the fixed-point scale.
pub const FX_ONE: i64 = 10_000;

/// Largest magnitude of any stored fixed-point quantity (a coordinate,
/// a half-extent, a radius, an accumulated rotation).
pub const FX_LIMIT: i64 = 1_000_000_000_000;

/// Largest magnitude of any rate (velocity, acceleration, angular velocity,
/// speed cap).
pub const SPEED_LIMIT: i64 = 1_000_000_000;

/// Bound up to which the geometric predicates accept coordinates; transformed
/// shapes stay within it whenever their parts satisfy `FX_LIMIT`.
pub const GEO_LIMIT: i64 = 4_000_000_000_000;

/// Magnitude of an integer.
pub open spec fn fx_abs(x: int) -> int {
    if x >= 0 {
        x
    } else {
        -x
    }
}

/// Division truncated toward zero, for a positive divisor. This is the
/// rounding the executable code performs.
pub open spec fn fx_tdiv(a: int, d: int) -> int {
    if a >= 0 {
        a / d
    } else {
        -((-a) / d)
    }
}

/// The fixed-point product: the integer product, rescaled by `FX_ONE` with
/// truncation toward zero.
pub open spec fn fx_mul_spec(a: int, b: int) -> int {
    fx_tdiv(a * b, FX_ONE as int)
}

/// Magnitudes multiply: `|a * b| == |a| * |b|`.
pub proof fn lemma_abs_mul(a: int, b: int)
    by (nonlinear_arith)
    ensures
        fx_abs(a * b) == fx_abs(a) * fx_abs(b),
{
}

/// Truncated division takes the floor of the magnitudes: `|a / d| == |a| / d`.
pub proof fn lemma_tdiv_abs(a: int, d: int)
    requires
        d > 0,
    ensures
        fx_abs(fx_tdiv(a, d)) == fx_abs(a) / d,
{
    if a >= 0 {
        vstd::arithmetic::div_mod::lemma_div_pos_is_pos(a, d);
    } else {
        vstd::arithmetic::div_mod::lemma_div_pos_is_pos(-a, d);
    }
}

/// Scaling the truncated quotient back up never exceeds the magnitude of the
/// dividend: `|a / d| * d <= |a|`.
pub proof fn lemma_tdiv_mul_le(a: int, d: int)
    requires
        d > 0,
    ensures
        fx_abs(fx_tdiv(a, d)) * d <= fx_abs(a),
{
    lemma_tdiv_abs(a, d);
    vstd::arithmetic::div_mod::lemma_fundamental_div_mod(fx_abs(a), d);
    vstd::arithmetic::div_mod::lemma_mod_bound(fx_abs(a), d);
}

/// A bound on both factors bounds the scaled product:
/// `|fx_mul_spec(a, b)| * FX_ONE <= ab * bb`.
pub proof fn lemma_fx_mul_bound(a: int, b: int, ab: int, bb: int)
    requires
        fx_abs(a) <= ab,
        fx_abs(b) <= bb,
    ensures
        fx_abs(fx_mul_spec(a, b)) * (FX_ONE as int) <= ab * bb,
{
    lemma_abs_mul(a, b);
    lemma_tdiv_mul_le(a * b, FX_ONE as int);
    assert(fx_abs(a) * fx_abs(b) <= ab * bb) by (nonlinear_arith)
        requires
            0 <= fx_abs(a) <= ab,
            0 <= fx_abs(b) <= bb,
    ;
}

/// Multiplying by a whole number of units is exact: `fx_mul_spec` by
/// `k * FX_ONE` is plain multiplication by `k`.
pub proof fn lemma_fx_mul_whole(k: int, b: int)
    ensures
        fx_mul_spec(k * (FX_ONE as int), b) == k * b,
{
    assert(k * (FX_ONE as int) * b == (k * b) * (FX_ONE as int)) by (nonlinear_arith);
    if k * b >= 0 {
        vstd::arithmetic::div_mod::lemma_div_by_multiple(k * b, FX_ONE as int);
    } else {
        assert(-((k * b) * (FX_ONE as int)) == (-(k * b)) * (FX_ONE as int))
            by (nonlinear_arith);
        vstd::arithmetic::div_mod::lemma_div_by_multiple(-(k * b), FX_ONE as int);
    }
}

/// The fixed-point product, truncated toward zero. The bound on the integer
/// product is what lets the rescaled result fit in `i64`.
pub fn fx_mul(a: i64, b: i64) -> (r: i64)
    requires
        -92_000_000_000_000_000_000_000 <= (a as int) * (b as int)
            <= 92_000_000_000_000_000_000_000,
    ensures
        r == fx_mul_spec(a as int, b as int),
{
    let neg: bool = (a < 0) != (b < 0);
    let am: u128 = if a >= 0 {
        a as u128
    } else {
        (-(a as i128)) as u128
    };
    let bm: u128 = if b >= 0 {
        b as u128
    } else {
        (-(b as i128)) as u128
    };
    proof {
        assert(am == fx_abs(a as int));
        assert(bm == fx_abs(b as int));
        lemma_abs_mul(a as int, b as int);
        assert((am as int) * (bm as int) == fx_abs((a as int) * (b as int)));
    }
    let m: u128 = am * bm;
    let q: u128 = m / (FX_ONE as u128);
    proof {
        vstd::arithmetic::div_mod::lemma_div_is_ordered(
            m as int,
            92_000_000_000_000_000_000_000,
            FX_ONE as int,
        );
        assert(q <= 9_200_000_000_000_000_000u128);
    }
    if neg {
        proof {
            assert((a as int) * (b as int) <= 0) by (nonlinear_arith)
                requires
                    (a < 0) != (b < 0),
            ;
        }
        -(q as i64)
    } else {
        proof {
            if (a as int) * (b as int) < 0 {
                assert((a as int) * (b as int) >= 0) by (nonlinear_arith)
                    requires
                        !((a < 0) != (b < 0)),
                ;
            }
        }
        q as i64
    }
}

/// Division of a fixed-point value by a plain positive integer, truncated
/// toward zero.
pub fn fx_div(a: i64, d: i64) -> (r: i64)
    requires
        d > 0,
        -0x7fff_ffff_ffff_ffff <= a,
    ensures
        r == fx_tdiv(a as int, d as int),
        fx_abs(r as int) <= fx_abs(a as int),
{
    proof {
        lemma_tdiv_abs(a as int, d as int);
        vstd::arithmetic::div_mod::lemma_div_nonincreasing(fx_abs(a as int), d as int);
    }
    if a >= 0 {
        a / d
    } else {
        -((-a) / d)
    }
}

/// Magnitude of an `i64` that is not `i64::MIN`.
pub fn fx_abs_exec(x: i64) -> (r: i64)
    requires
        -0x7fff_ffff_ffff_ffff <= x,
    ensures
        r == fx_abs(x as int),
{
    if x >= 0 {
        x
    } else {
        -x
    }
}

/// Clamp a value into the interval `[lo, hi]`.
pub fn fx_clamp(x: i64, lo: i64, hi: i64) -> (r: i64)
    requires
        lo <= hi,
    ensures
        r == fx_clamp_spec(x as int, lo as int, hi as int),
{
    if x < lo {
        lo
    } else if x > hi {
        hi
    } else {
        x
    }
}

/// The value of `x` clamped into `[lo, hi]`.
pub open spec fn fx_clamp_spec(x: int, lo: int, hi: int) -> int {
    if x < lo {
        lo
    } else if x > hi {
        hi
    } else {
        x
    }
}

/// Scaling by a fraction of one unit stays between nothing and the whole:
/// for `0 <= f <= FX_ONE`, `fx_mul_spec(f, d)` lies between `0` and `d`.
pub proof fn lemma_fx_mul_fraction(f: int, d: int)
    requires
        0 <= f <= FX_ONE as int,
    ensures
        d >= 0 ==> 0 <= fx_mul_spec(f, d) <= d,
        d <= 0 ==> d <= fx_mul_spec(f, d) <= 0,
{
    if d >= 0 {
        assert(0 <= f * d <= (FX_ONE as int) * d) by (nonlinear_arith)
            requires
                0 <= f <= FX_ONE as int,
                d >= 0,
        ;
        vstd::arithmetic::div_mod::lemma_div_pos_is_pos(f * d, FX_ONE as int);
        vstd::arithmetic::div_mod::lemma_div_is_ordered(f * d, (FX_ONE as int) * d, FX_ONE as int);
        vstd::arithmetic::div_mod::lemma_div_by_multiple(d, FX_ONE as int);
        assert(d * (FX_ONE as int) == (FX_ONE as int) * d) by (nonlinear_arith);
    } else {
        assert(0 <= f * (-d) <= (FX_ONE as int) * (-d)) by (nonlinear_arith)
            requires
                0 <= f <= FX_ONE as int,
                d < 0,
        ;
        assert(f * (-d) == -(f * d)) by (nonlinear_arith);
        vstd::arithmetic::div_mod::lemma_div_pos_is_pos(-(f * d), FX_ONE as int);
        vstd::arithmetic::div_mod::lemma_div_is_ordered(
            -(f * d),
            (FX_ONE as int) * (-d),
            FX_ONE as int,
        );
        vstd::arithmetic::div_mod::lemma_div_by_multiple(-d, FX_ONE as int);
        assert((-d) * (FX_ONE as int) == (FX_ONE as int) * (-d)) by (nonlinear_arith);
    }
}

/// Wide multiplication for geometric intermediates: exact as long as both
/// factors stay within a quintillion, which every bounded quantity of this
/// crate does.
pub fn mul_wide(a: i128, b: i128) -> (r: i128)
    requires
        -1_000_000_000_000_000_000 <= a <= 1_000_000_000_000_000_000,
        -1_000_000_000_000_000_000 <= b <= 1_000_000_000_000_000_000,
    ensures
        r == a * b,
        -1_000_000_000_000_000_000_000_000_000_000_000_000 <= r
            <= 1_000_000_000_000_000_000_000_000_000_000_000_000,
{
    proof {
        assert(-1_000_000_000_000_000_000_000_000_000_000_000_000 <= a * b
            <= 1_000_000_000_000_000_000_000_000_000_000_000_000) by (nonlinear_arith)
            requires
                -1_000_000_000_000_000_000 <= a <= 1_000_000_000_000_000_000,
                -1_000_000_000_000_000_000 <= b <= 1_000_000_000_000_000_000,
        ;
    }
    a * b
}

/// What it means for `r` to be the integer square root of `n`, rounded up:
/// the least nonnegative integer whose square reaches `n`.
pub open spec fn sqrt_ceil_prop(n: int, r: int) -> bool {
    &&& r >= 0
    &&& r * r >= n
    &&& r > 0 ==> (r - 1) * (r - 1) < n
}

/// The integer square root of `n`, rounded up.
pub open spec fn sqrt_ceil(n: int) -> int {
    choose|r: int| sqrt_ceil_prop(n, r)
}

/// At most one integer satisfies `sqrt_ceil_prop` for a given `n`.
pub proof fn lemma_sqrt_ceil_unique(n: int, r1: int, r2: int)
    by (nonlinear_arith)
    requires
        sqrt_ceil_prop(n, r1),
        sqrt_ceil_prop(n, r2),
    ensures
        r1 == r2,
{
}

/// The integer square root, rounded up, by binary search.
pub fn isqrt_ceil(n: u128) -> (r: u64)
    requires
        n <= 0x10000000000000000000000000000000,
    ensures
        sqrt_ceil_prop(n as int, r as int),
        r == sqrt_ceil(n as int),
{
    if n == 0 {
        proof {
            assert(sqrt_ceil_prop(0, 0));
            lemma_sqrt_ceil_unique(0, 0, sqrt_ceil(0));
        }
        return 0;
    }
    let mut lo: u64 = 0;
    let mut hi: u64 = 0x4000000000000000;
    proof {
        assert((hi as int) * (hi as int) >= n as int) by (nonlinear_arith)
            requires
                hi == 0x4000000000000000u64,
                n <= 0x10000000000000000000000000000000u128,
        ;
    }
    while lo + 1 < hi
        invariant
            lo < hi,
            hi <= 0x4000000000000000,
            (lo as int) * (lo as int) < n as int,
            (hi as int) * (hi as int) >= n as int,
        decreases hi - lo,
    {
        let mid: u64 = lo + (hi - lo) / 2;
        proof {
            assert((mid as int) * (mid as int) <= 0x10000000000000000000000000000000)
                by (nonlinear_arith)
                requires
                    mid <= 0x4000000000000000u64,
            ;
        }
        if (mid as u128) * (mid as u128) >= n {
            hi = mid;
        } else {
            lo = mid;
        }
    }
    proof {
        assert(lo + 1 == hi);
        assert(sqrt_ceil_prop(n as int, hi as int));
        lemma_sqrt_ceil_unique(n as int, hi as int, sqrt_ceil(n as int));
    }
    hi
}

} // verus!
