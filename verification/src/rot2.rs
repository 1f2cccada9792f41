//! Fixed-point 2D rotations.
//!
//! A rotation is stored as the cosine/sine pair of its angle, in fixed point.
//! Angles themselves (as carried by `Movement`) are fixed-point radians; the
//! conversion to a cosine/sine pair reduces the angle into one period and
//! evaluates a truncated Taylor polynomial, entirely in integer arithmetic,
//! so the result is a deterministic function of the angle and the contracts
//! below pin it exactly.

use vstd::prelude::*;

use crate::fxmath::{
    fx_abs, fx_clamp, fx_clamp_spec, fx_div, fx_mul, fx_mul_spec, fx_tdiv,
    lemma_fx_mul_bound, FX_ONE,
};

verus! {

/// One half turn (pi radians) in fixed point.
pub const PI_FX: i64 = 31_416;

/// One full turn (two pi radians) in fixed point.
pub const TWO_PI_FX: i64 = 62_832;

/// A quarter turn (pi / 2 radians) in fixed point.
pub const HALF_PI_FX: i64 = 15_708;

/// Bound on the cosine/sine components of a composed rotation: composing two
/// unit-grade rotations can overshoot one by rounding, never two.
pub const ROT_LIMIT: i64 = 20_000;

/// The angle shifted into `(-PI_FX, PI_FX]` by whole turns.
pub open spec fn angle_reduce_spec(x: int) -> int {
    let r = x % (TWO_PI_FX as int);
    if r > PI_FX as int {
        r - TWO_PI_FX as int
    } else {
        r
    }
}

/// Shifts the angle into `(-PI_FX, PI_FX]` by whole turns.
pub fn angle_reduce(x: i64) -> (r: i64)
    requires
        -0x7fff_ffff_ffff_ffff <= x,
    ensures
        r == angle_reduce_spec(x as int),
        -(PI_FX as int) <= r <= PI_FX as int,
{
    let m: u64 = if x >= 0 {
        (x as u64) % (TWO_PI_FX as u64)
    } else {
        let n: u128 = (-(x as i128)) as u128;
        let mm: u64 = (n % (TWO_PI_FX as u128)) as u64;
        proof {
            vstd::arithmetic::div_mod::lemma_fundamental_div_mod(n as int, TWO_PI_FX as int);
            vstd::arithmetic::div_mod::lemma_mod_bound(n as int, TWO_PI_FX as int);
            let q = (n as int) / (TWO_PI_FX as int);
            if mm == 0 {
                vstd::arithmetic::div_mod::lemma_fundamental_div_mod_converse(
                    x as int,
                    TWO_PI_FX as int,
                    -q,
                    0,
                );
            } else {
                vstd::arithmetic::div_mod::lemma_fundamental_div_mod_converse(
                    x as int,
                    TWO_PI_FX as int,
                    -q - 1,
                    TWO_PI_FX as int - mm,
                );
            }
        }
        if mm == 0 {
            0
        } else {
            (TWO_PI_FX as u64) - mm
        }
    };
    proof {
        if x >= 0 {
            vstd::arithmetic::div_mod::lemma_mod_bound(x as int, TWO_PI_FX as int);
        }
        assert(m == (x as int) % (TWO_PI_FX as int));
    }
    let r: i64 = m as i64;
    if r > PI_FX {
        r - TWO_PI_FX
    } else {
        r
    }
}

/// Folds an angle in `[-PI_FX, PI_FX]` into `[-HALF_PI_FX, HALF_PI_FX]`
/// using the mirror symmetry of the sine.
pub open spec fn sin_fold_spec(r: int) -> int {
    if r > HALF_PI_FX as int {
        PI_FX as int - r
    } else if r < -(HALF_PI_FX as int) {
        -(PI_FX as int) - r
    } else {
        r
    }
}

/// The truncated Taylor polynomial of the sine, in fixed point, for inputs in
/// `[-HALF_PI_FX, HALF_PI_FX]`.
pub open spec fn sin_poly_spec(x: int) -> int {
    let x2 = fx_mul_spec(x, x);
    let x3 = fx_mul_spec(x2, x);
    let x5 = fx_mul_spec(x3, x2);
    let x7 = fx_mul_spec(x5, x2);
    let x9 = fx_mul_spec(x7, x2);
    x - fx_tdiv(x3, 6) + fx_tdiv(x5, 120) - fx_tdiv(x7, 5040) + fx_tdiv(x9, 362880)
}

/// The truncated Taylor polynomial of the cosine, in fixed point, for inputs
/// in `[-HALF_PI_FX, HALF_PI_FX]`.
pub open spec fn cos_poly_spec(x: int) -> int {
    let x2 = fx_mul_spec(x, x);
    let x4 = fx_mul_spec(x2, x2);
    let x6 = fx_mul_spec(x4, x2);
    let x8 = fx_mul_spec(x6, x2);
    FX_ONE as int - fx_tdiv(x2, 2) + fx_tdiv(x4, 24) - fx_tdiv(x6, 720) + fx_tdiv(x8, 40320)
}

/// The fixed-point sine of a fixed-point angle, clamped into one unit.
pub open spec fn fx_sin_spec(x: int) -> int {
    fx_clamp_spec(
        sin_poly_spec(sin_fold_spec(angle_reduce_spec(x))),
        -(FX_ONE as int),
        FX_ONE as int,
    )
}

/// The fixed-point cosine of a fixed-point angle, clamped into one unit.
pub open spec fn fx_cos_spec(x: int) -> int {
    let r = angle_reduce_spec(x);
    let c = if r > HALF_PI_FX as int {
        -cos_poly_spec(PI_FX as int - r)
    } else if r < -(HALF_PI_FX as int) {
        -cos_poly_spec(PI_FX as int + r)
    } else {
        cos_poly_spec(r)
    };
    fx_clamp_spec(c, -(FX_ONE as int), FX_ONE as int)
}

/// Evaluates the sine polynomial.
fn sin_poly(x: i64) -> (r: i64)
    requires
        fx_abs(x as int) <= HALF_PI_FX as int,
    ensures
        r == sin_poly_spec(x as int),
        fx_abs(r as int) <= 1_000_000,
{
    proof {
        lemma_fx_mul_bound(x as int, x as int, HALF_PI_FX as int, HALF_PI_FX as int);
    }
    let x2: i64 = fx_mul(x, x);
    proof {
        lemma_fx_mul_bound(x2 as int, x as int, 24_675, HALF_PI_FX as int);
    }
    let x3: i64 = fx_mul(x2, x);
    proof {
        lemma_fx_mul_bound(x3 as int, x2 as int, 38_760, 24_675);
    }
    let x5: i64 = fx_mul(x3, x2);
    proof {
        lemma_fx_mul_bound(x5 as int, x2 as int, 95_640, 24_675);
    }
    let x7: i64 = fx_mul(x5, x2);
    proof {
        lemma_fx_mul_bound(x7 as int, x2 as int, 235_995, 24_675);
    }
    let x9: i64 = fx_mul(x7, x2);
    x - fx_div(x3, 6) + fx_div(x5, 120) - fx_div(x7, 5040) + fx_div(x9, 362880)
}

/// Evaluates the cosine polynomial.
fn cos_poly(x: i64) -> (r: i64)
    requires
        fx_abs(x as int) <= HALF_PI_FX as int,
    ensures
        r == cos_poly_spec(x as int),
        fx_abs(r as int) <= 1_000_000,
{
    proof {
        lemma_fx_mul_bound(x as int, x as int, HALF_PI_FX as int, HALF_PI_FX as int);
    }
    let x2: i64 = fx_mul(x, x);
    proof {
        lemma_fx_mul_bound(x2 as int, x2 as int, 24_675, 24_675);
    }
    let x4: i64 = fx_mul(x2, x2);
    proof {
        lemma_fx_mul_bound(x4 as int, x2 as int, 60_890, 24_675);
    }
    let x6: i64 = fx_mul(x4, x2);
    proof {
        lemma_fx_mul_bound(x6 as int, x2 as int, 150_250, 24_675);
    }
    let x8: i64 = fx_mul(x6, x2);
    FX_ONE - fx_div(x2, 2) + fx_div(x4, 24) - fx_div(x6, 720) + fx_div(x8, 40320)
}

/// The fixed-point sine of a fixed-point angle in radians.
pub fn fx_sin(x: i64) -> (r: i64)
    requires
        -0x7fff_ffff_ffff_ffff <= x,
    ensures
        r == fx_sin_spec(x as int),
        fx_abs(r as int) <= FX_ONE as int,
{
    let red: i64 = angle_reduce(x);
    let folded: i64 = if red > HALF_PI_FX {
        PI_FX - red
    } else if red < -HALF_PI_FX {
        -PI_FX - red
    } else {
        red
    };
    let s: i64 = sin_poly(folded);
    fx_clamp(s, -FX_ONE, FX_ONE)
}

/// The fixed-point cosine of a fixed-point angle in radians.
pub fn fx_cos(x: i64) -> (r: i64)
    requires
        -0x7fff_ffff_ffff_ffff <= x,
    ensures
        r == fx_cos_spec(x as int),
        fx_abs(r as int) <= FX_ONE as int,
{
    let red: i64 = angle_reduce(x);
    let c: i64 = if red > HALF_PI_FX {
        -cos_poly(PI_FX - red)
    } else if red < -HALF_PI_FX {
        -cos_poly(PI_FX + red)
    } else {
        cos_poly(red)
    };
    fx_clamp(c, -FX_ONE, FX_ONE)
}

/// A 2D rotation as the fixed-point cosine/sine pair of its angle.
#[derive(Clone, Copy, PartialEq, Eq, Structural, Debug)]
pub struct Rot2 {
    pub cos: i64,
    pub sin: i64,
}

/// A unit-grade rotation: both components within one fixed-point unit, as
/// `from_angle` produces and constructors require.
pub open spec fn rot2_wf(r: Rot2) -> bool {
    fx_abs(r.cos as int) <= FX_ONE as int && fx_abs(r.sin as int) <= FX_ONE as int
}

/// A rotation that may come from one composition of two unit-grade rotations:
/// each component within `ROT_LIMIT`.
pub open spec fn rot2_bounded(r: Rot2) -> bool {
    fx_abs(r.cos as int) <= ROT_LIMIT as int && fx_abs(r.sin as int) <= ROT_LIMIT as int
}

/// The composition of two rotations, in fixed point: the angle-sum formulas
/// with each product rescaled by `FX_ONE`.
pub open spec fn rot_mul_spec(a: Rot2, b: Rot2) -> Rot2 {
    Rot2 {
        cos: (fx_mul_spec(a.cos as int, b.cos as int) - fx_mul_spec(
            a.sin as int,
            b.sin as int,
        )) as i64,
        sin: (fx_mul_spec(a.sin as int, b.cos as int) + fx_mul_spec(
            a.cos as int,
            b.sin as int,
        )) as i64,
    }
}

impl Rot2 {
    /// The rotation by nothing.
    pub fn identity() -> (r: Rot2)
        ensures
            r == (Rot2 { cos: FX_ONE, sin: 0i64 }),
            rot2_wf(r),
    {
        Rot2 { cos: FX_ONE, sin: 0 }
    }

    /// A rotation from its cosine/sine pair. The pair must be unit-grade;
    /// the caller supplies values for the angle it means.
    pub fn from_cos_sin(cos: i64, sin: i64) -> (r: Rot2)
        requires
            fx_abs(cos as int) <= FX_ONE as int,
            fx_abs(sin as int) <= FX_ONE as int,
        ensures
            r == (Rot2 { cos, sin }),
            rot2_wf(r),
    {
        Rot2 { cos, sin }
    }

    /// The rotation by a fixed-point angle in radians.
    pub fn from_angle(angle: i64) -> (r: Rot2)
        requires
            -0x7fff_ffff_ffff_ffff <= angle,
        ensures
            r.cos == fx_cos_spec(angle as int),
            r.sin == fx_sin_spec(angle as int),
            rot2_wf(r),
    {
        Rot2 { cos: fx_cos(angle), sin: fx_sin(angle) }
    }

    /// The inverse rotation: the sine changes sign.
    pub fn inverse(self) -> (r: Rot2)
        requires
            fx_abs(self.sin as int) <= ROT_LIMIT as int,
        ensures
            r.cos == self.cos,
            r.sin == -(self.sin as int),
    {
        Rot2 { cos: self.cos, sin: -self.sin }
    }

    /// The composition of `self` with `other` (rotation by the sum of the
    /// angles). Composition of rotations in the plane commutes, and so does
    /// this fixed-point form, term by term.
    pub fn mul(self, other: Rot2) -> (r: Rot2)
        requires
            rot2_wf(self),
            rot2_wf(other),
        ensures
            r == rot_mul_spec(self, other),
            rot2_bounded(r),
    {
        proof {
            lemma_fx_mul_bound(self.cos as int, other.cos as int, FX_ONE as int, FX_ONE as int);
            lemma_fx_mul_bound(self.sin as int, other.sin as int, FX_ONE as int, FX_ONE as int);
            lemma_fx_mul_bound(self.sin as int, other.cos as int, FX_ONE as int, FX_ONE as int);
            lemma_fx_mul_bound(self.cos as int, other.sin as int, FX_ONE as int, FX_ONE as int);
        }
        let cos: i64 = fx_mul(self.cos, other.cos) - fx_mul(self.sin, other.sin);
        let sin: i64 = fx_mul(self.sin, other.cos) + fx_mul(self.cos, other.sin);
        Rot2 { cos, sin }
    }
}

/// The image of a vector under a rotation: the rotation matrix applied in
/// fixed point, each product rescaled by `FX_ONE`.
pub open spec fn rotate_vec_spec(r: Rot2, v: crate::vec2::Vec2) -> crate::vec2::Vec2 {
    crate::vec2::vec2_spec(
        fx_mul_spec(r.cos as int, v.x as int) - fx_mul_spec(r.sin as int, v.y as int),
        fx_mul_spec(r.sin as int, v.x as int) + fx_mul_spec(r.cos as int, v.y as int),
    )
}

impl Rot2 {
    /// Rotates a vector by `self`.
    pub fn rotate(self, v: crate::vec2::Vec2) -> (r: crate::vec2::Vec2)
        requires
            rot2_wf(self),
            fx_abs(v.x as int) <= crate::fxmath::FX_LIMIT as int,
            fx_abs(v.y as int) <= crate::fxmath::FX_LIMIT as int,
        ensures
            r == rotate_vec_spec(self, v),
            fx_abs(r.x as int) <= 2_000_000_000_000,
            fx_abs(r.y as int) <= 2_000_000_000_000,
    {
        proof {
            lemma_fx_mul_bound(self.cos as int, v.x as int, FX_ONE as int, 1_000_000_000_000);
            lemma_fx_mul_bound(self.sin as int, v.y as int, FX_ONE as int, 1_000_000_000_000);
            lemma_fx_mul_bound(self.sin as int, v.x as int, FX_ONE as int, 1_000_000_000_000);
            lemma_fx_mul_bound(self.cos as int, v.y as int, FX_ONE as int, 1_000_000_000_000);
        }
        let x: i64 = fx_mul(self.cos, v.x) - fx_mul(self.sin, v.y);
        let y: i64 = fx_mul(self.sin, v.x) + fx_mul(self.cos, v.y);
        crate::vec2::Vec2 { x, y }
    }
}

/// Composition of rotations commutes, exactly, even in fixed point.
pub proof fn lemma_rot_mul_commutes(a: Rot2, b: Rot2)
    ensures
        rot_mul_spec(a, b) == rot_mul_spec(b, a),
{
    vstd::arithmetic::mul::lemma_mul_is_commutative(a.cos as int, b.cos as int);
    vstd::arithmetic::mul::lemma_mul_is_commutative(a.sin as int, b.sin as int);
    vstd::arithmetic::mul::lemma_mul_is_commutative(a.sin as int, b.cos as int);
    vstd::arithmetic::mul::lemma_mul_is_commutative(a.cos as int, b.sin as int);
}

} // verus!
