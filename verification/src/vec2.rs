//! Fixed-point 2D vectors.

use vstd::prelude::*;

use crate::fxmath::{
    fx_abs, fx_mul, fx_mul_spec, fx_tdiv, isqrt_ceil, lemma_abs_mul, lemma_tdiv_mul_le,
    sqrt_ceil, sqrt_ceil_prop, FX_ONE, GEO_LIMIT,
};

verus! {

/// A 2D vector of fixed-point coordinates.
#[derive(Clone, Copy, PartialEq, Eq, Structural, Debug)]
pub struct Vec2 {
    pub x: i64,
    pub y: i64,
}

/// The vector with the given coordinates, truncated into `i64`; spec-level
/// constructor for stating results of fixed-point computations.
pub open spec fn vec2_spec(x: int, y: int) -> Vec2 {
    Vec2 { x: x as i64, y: y as i64 }
}

/// The componentwise sum, truncated into `i64`.
pub open spec fn vec2_add_spec(a: Vec2, b: Vec2) -> Vec2 {
    vec2_spec(a.x + b.x, a.y + b.y)
}

/// The squared Euclidean length, exactly, over the integers.
pub open spec fn len_sq_spec(v: Vec2) -> int {
    (v.x as int) * (v.x as int) + (v.y as int) * (v.y as int)
}

impl Vec2 {
    /// A vector from its two coordinates.
    pub fn new(x: i64, y: i64) -> (r: Vec2)
        ensures
            r == (Vec2 { x, y }),
    {
        Vec2 { x, y }
    }

    /// The zero vector.
    pub fn zero() -> (r: Vec2)
        ensures
            r == (Vec2 { x: 0i64, y: 0i64 }),
    {
        Vec2 { x: 0, y: 0 }
    }

    /// Componentwise sum.
    pub fn add(self, other: Vec2) -> (r: Vec2)
        requires
            i64::MIN <= self.x + other.x <= i64::MAX,
            i64::MIN <= self.y + other.y <= i64::MAX,
        ensures
            r == vec2_spec(self.x + other.x, self.y + other.y),
    {
        Vec2 { x: self.x + other.x, y: self.y + other.y }
    }

    /// Componentwise difference.
    pub fn sub(self, other: Vec2) -> (r: Vec2)
        requires
            i64::MIN <= self.x - other.x <= i64::MAX,
            i64::MIN <= self.y - other.y <= i64::MAX,
        ensures
            r == vec2_spec(self.x - other.x, self.y - other.y),
    {
        Vec2 { x: self.x - other.x, y: self.y - other.y }
    }

    /// Both coordinates scaled by the fixed-point factor `s`.
    pub fn scale(self, s: i64) -> (r: Vec2)
        requires
            -92_000_000_000_000_000_000_000 <= (self.x as int) * (s as int)
                <= 92_000_000_000_000_000_000_000,
            -92_000_000_000_000_000_000_000 <= (self.y as int) * (s as int)
                <= 92_000_000_000_000_000_000_000,
        ensures
            r == vec2_spec(
                fx_mul_spec(self.x as int, s as int),
                fx_mul_spec(self.y as int, s as int),
            ),
    {
        Vec2 { x: fx_mul(self.x, s), y: fx_mul(self.y, s) }
    }

    /// The squared length. Exact: no fixed-point rescaling is applied, so the
    /// result carries the square of the scale.
    pub fn length_squared(self) -> (r: i128)
        requires
            fx_abs(self.x as int) <= GEO_LIMIT,
            fx_abs(self.y as int) <= GEO_LIMIT,
        ensures
            r == len_sq_spec(self),
            0 <= r <= 32_000_000_000_000_000_000_000_000,
    {
        proof {
            assert((self.x as int) * (self.x as int) <= 16_000_000_000_000_000_000_000_000
                && (self.y as int) * (self.y as int) <= 16_000_000_000_000_000_000_000_000
                && (self.x as int) * (self.x as int) >= 0
                && (self.y as int) * (self.y as int) >= 0) by (nonlinear_arith)
                requires
                    fx_abs(self.x as int) <= 4_000_000_000_000int,
                    fx_abs(self.y as int) <= 4_000_000_000_000int,
                    fx_abs(self.x as int) == self.x as int || fx_abs(self.x as int) == -(self.x as int),
                    fx_abs(self.y as int) == self.y as int || fx_abs(self.y as int) == -(self.y as int),
                    fx_abs(self.x as int) >= 0,
                    fx_abs(self.y as int) >= 0,
            ;
        }
        (self.x as i128) * (self.x as i128) + (self.y as i128) * (self.y as i128)
    }
}

/// The vector shortened to length at most `max`, as `clamp_length_max`
/// computes it: unchanged when already short enough, otherwise each component
/// scaled by `max` and divided (truncating) by the rounded-up length.
pub open spec fn clamp_length_spec(v: Vec2, max: i64) -> Vec2 {
    if len_sq_spec(v) <= (max as int) * (max as int) {
        v
    } else {
        let l = sqrt_ceil(len_sq_spec(v));
        vec2_spec(fx_tdiv((v.x as int) * (max as int), l), fx_tdiv((v.y as int) * (max as int), l))
    }
}

/// One scaled component stays within `max`: from `x*x <= l*l` and `l >= 1`,
/// `|x * max / l| <= max`.
pub proof fn lemma_clamp_component(x: int, max: int, l: int)
    requires
        l >= 1,
        max >= 0,
        x * x <= l * l,
    ensures
        fx_abs(fx_tdiv(x * max, l)) <= max,
{
    lemma_tdiv_mul_le(x * max, l);
    lemma_abs_mul(x, max);
    let p = fx_abs(fx_tdiv(x * max, l));
    let fx = fx_abs(x);
    assert(fx <= l) by (nonlinear_arith)
        requires
            x * x <= l * l,
            l >= 1,
            fx == x || fx == -x,
            fx >= 0,
    ;
    assert(fx * max <= l * max) by (nonlinear_arith)
        requires
            fx <= l,
            max >= 0,
    ;
    assert(p <= max) by (nonlinear_arith)
        requires
            p * l <= l * max,
            l >= 1,
    ;
}

/// The clamped vector really has squared length at most `max * max`.
pub proof fn lemma_clamp_len_sq(vx: int, vy: int, max: int, l: int)
    requires
        l >= 1,
        max >= 0,
        vx * vx + vy * vy <= l * l,
    ensures
        ({
            let a = fx_tdiv(vx * max, l);
            let b = fx_tdiv(vy * max, l);
            a * a + b * b <= max * max
        }),
{
    let a = fx_tdiv(vx * max, l);
    let b = fx_tdiv(vy * max, l);
    lemma_tdiv_mul_le(vx * max, l);
    lemma_tdiv_mul_le(vy * max, l);
    lemma_abs_mul(vx, max);
    lemma_abs_mul(vy, max);
    let pa = fx_abs(a);
    let pb = fx_abs(b);
    let fvx = fx_abs(vx);
    let fvy = fx_abs(vy);
    assert(a * a * (l * l) <= (vx * vx) * (max * max)) by (nonlinear_arith)
        requires
            pa * l <= fvx * max,
            pa >= 0,
            fvx >= 0,
            max >= 0,
            l >= 1,
            pa == a || pa == -a,
            fvx == vx || fvx == -vx,
    ;
    assert(b * b * (l * l) <= (vy * vy) * (max * max)) by (nonlinear_arith)
        requires
            pb * l <= fvy * max,
            pb >= 0,
            fvy >= 0,
            max >= 0,
            l >= 1,
            pb == b || pb == -b,
            fvy == vy || fvy == -vy,
    ;
    assert(a * a + b * b <= max * max) by (nonlinear_arith)
        requires
            a * a * (l * l) <= (vx * vx) * (max * max),
            b * b * (l * l) <= (vy * vy) * (max * max),
            vx * vx + vy * vy <= l * l,
            l >= 1,
            max >= 0,
    ;
}

impl Vec2 {
    /// The vector, shortened to length at most `max` when it is longer. After
    /// the call the squared length never exceeds `max * max`: the speed clamp
    /// is exact, with no epsilon.
    pub fn clamp_length_max(self, max: i64) -> (r: Vec2)
        requires
            0 <= max <= GEO_LIMIT,
            fx_abs(self.x as int) <= GEO_LIMIT,
            fx_abs(self.y as int) <= GEO_LIMIT,
        ensures
            r == clamp_length_spec(self, max),
            len_sq_spec(r) <= (max as int) * (max as int),
            fx_abs(r.x as int) <= max,
            fx_abs(r.y as int) <= max,
    {
        let ls: i128 = self.length_squared();
        proof {
            assert(0 <= (max as int) * (max as int) <= 16_000_000_000_000_000_000_000_000)
                by (nonlinear_arith)
                requires
                    0 <= max as int <= 4_000_000_000_000int,
            ;
        }
        let max_sq: i128 = (max as i128) * (max as i128);
        if ls <= max_sq {
            proof {
                assert(fx_abs(self.x as int) <= max && fx_abs(self.y as int) <= max)
                    by (nonlinear_arith)
                    requires
                        (self.x as int) * (self.x as int) + (self.y as int) * (self.y as int)
                            <= (max as int) * (max as int),
                        max >= 0,
                ;
            }
            self
        } else {
            proof {
                assert(len_sq_spec(self) <= 0x10000000000000000000000000000000)
                    by (nonlinear_arith)
                    requires
                        fx_abs(self.x as int) <= GEO_LIMIT as int,
                        fx_abs(self.y as int) <= GEO_LIMIT as int,
                        GEO_LIMIT == 4_000_000_000_000i64,
                ;
            }
            let l: u64 = isqrt_ceil(ls as u128);
            proof {
                assert(l >= 1) by (nonlinear_arith)
                    requires
                        (l as int) * (l as int) >= ls as int,
                        ls >= 1,
                ;
                assert((self.x as int) * (self.x as int) <= (l as int) * (l as int)
                    && (self.y as int) * (self.y as int) <= (l as int) * (l as int))
                    by (nonlinear_arith)
                    requires
                        (l as int) * (l as int) >= len_sq_spec(self),
                        len_sq_spec(self) == (self.x as int) * (self.x as int) + (self.y as int)
                            * (self.y as int),
                ;
            }
            let rx: i64 = div_scaled(self.x, max, l);
            let ry: i64 = div_scaled(self.y, max, l);
            proof {
                lemma_clamp_len_sq(self.x as int, self.y as int, max as int, l as int);
                lemma_clamp_component(self.x as int, max as int, l as int);
                lemma_clamp_component(self.y as int, max as int, l as int);
            }
            Vec2 { x: rx, y: ry }
        }
    }
}

/// Computes `x * max / l` truncated toward zero, the scaling step of the
/// length clamp.
fn div_scaled(x: i64, max: i64, l: u64) -> (r: i64)
    requires
        l >= 1,
        0 <= max <= GEO_LIMIT,
        fx_abs(x as int) <= GEO_LIMIT,
        (x as int) * (x as int) <= (l as int) * (l as int),
    ensures
        r == fx_tdiv((x as int) * (max as int), l as int),
{
    proof {
        lemma_abs_mul(x as int, max as int);
        assert(fx_abs(x as int) * (max as int) <= 16_000_000_000_000_000_000_000_000int)
            by (nonlinear_arith)
            requires
                0 <= fx_abs(x as int) <= 4_000_000_000_000int,
                0 <= max as int <= 4_000_000_000_000int,
        ;
        lemma_clamp_component(x as int, max as int, l as int);
    }
    let xm: u128 = if x >= 0 {
        x as u128
    } else {
        (-(x as i128)) as u128
    };
    let m: u128 = xm * (max as u128);
    let q: u128 = m / (l as u128);
    proof {
        crate::fxmath::lemma_tdiv_abs((x as int) * (max as int), l as int);
        assert(q == fx_abs(fx_tdiv((x as int) * (max as int), l as int)));
    }
    if x >= 0 {
        proof {
            assert((x as int) * (max as int) >= 0) by (nonlinear_arith)
                requires
                    x >= 0,
                    max >= 0,
            ;
        }
        q as i64
    } else {
        proof {
            assert((x as int) * (max as int) <= 0) by (nonlinear_arith)
                requires
                    x <= 0,
                    max >= 0,
            ;
        }
        -(q as i64)
    }
}

} // verus!
