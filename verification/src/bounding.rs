//! Axis-aligned bounding boxes and bounding circles, with exact fixed-point
//! intersection tests and world-space transforms.

use vstd::prelude::*;

use crate::fxmath::{
    fx_abs, fx_abs_exec, fx_clamp, fx_clamp_spec, fx_mul, fx_mul_spec, lemma_fx_mul_bound,
    mul_wide, FX_LIMIT, FX_ONE, GEO_LIMIT,
};
use crate::rot2::{rot2_wf, rotate_vec_spec, Rot2};
use crate::vec2::{vec2_add_spec, vec2_spec, Vec2};

verus! {

/// An axis-aligned box: a center and nonnegative half-extents.
#[derive(Clone, Copy, PartialEq, Eq, Structural, Debug)]
pub struct Aabb2d {
    pub center: Vec2,
    pub half_size: Vec2,
}

/// A circle: a center and a nonnegative radius.
#[derive(Clone, Copy, PartialEq, Eq, Structural, Debug)]
pub struct BoundingCircle {
    pub center: Vec2,
    pub radius: i64,
}

/// A well-formed stored box: nonnegative half-extents, all parts within the
/// storage bound.
pub open spec fn aabb_wf(a: Aabb2d) -> bool {
    &&& 0 <= a.half_size.x as int <= FX_LIMIT as int
    &&& 0 <= a.half_size.y as int <= FX_LIMIT as int
    &&& fx_abs(a.center.x as int) <= FX_LIMIT as int
    &&& fx_abs(a.center.y as int) <= FX_LIMIT as int
}

/// A box the intersection tests accept: nonnegative half-extents within the
/// wider bound that a world-space transform can reach.
pub open spec fn aabb_geo(a: Aabb2d) -> bool {
    &&& 0 <= a.half_size.x as int <= GEO_LIMIT as int
    &&& 0 <= a.half_size.y as int <= GEO_LIMIT as int
    &&& fx_abs(a.center.x as int) <= GEO_LIMIT as int
    &&& fx_abs(a.center.y as int) <= GEO_LIMIT as int
}

/// A well-formed stored circle.
pub open spec fn circle_wf(c: BoundingCircle) -> bool {
    &&& 0 <= c.radius as int <= FX_LIMIT as int
    &&& fx_abs(c.center.x as int) <= FX_LIMIT as int
    &&& fx_abs(c.center.y as int) <= FX_LIMIT as int
}

/// A circle the intersection tests accept.
pub open spec fn circle_geo(c: BoundingCircle) -> bool {
    &&& 0 <= c.radius as int <= GEO_LIMIT as int
    &&& fx_abs(c.center.x as int) <= GEO_LIMIT as int
    &&& fx_abs(c.center.y as int) <= GEO_LIMIT as int
}

/// Two axis-aligned boxes overlap iff their intervals overlap on both axes:
/// on each axis the distance of the centers is at most the sum of the
/// half-extents.
pub open spec fn aabb_aabb_intersects_spec(a: Aabb2d, b: Aabb2d) -> bool {
    &&& fx_abs(b.center.x - a.center.x) <= a.half_size.x + b.half_size.x
    &&& fx_abs(b.center.y - a.center.y) <= a.half_size.y + b.half_size.y
}

/// Two circles overlap iff the squared distance of their centers is at most
/// the square of the sum of their radii.
pub open spec fn circle_circle_intersects_spec(a: BoundingCircle, b: BoundingCircle) -> bool {
    let dx = b.center.x - a.center.x;
    let dy = b.center.y - a.center.y;
    dx * dx + dy * dy <= (a.radius + b.radius) * (a.radius + b.radius)
}

/// A box and a circle overlap iff the point of the box closest to the
/// circle's center lies within the radius: the center offset is clamped into
/// the half-extents and the remaining squared distance compared against the
/// squared radius.
pub open spec fn aabb_circle_intersects_spec(a: Aabb2d, c: BoundingCircle) -> bool {
    let dx = c.center.x - a.center.x;
    let dy = c.center.y - a.center.y;
    let ex = dx - fx_clamp_spec(dx, -(a.half_size.x as int), a.half_size.x as int);
    let ey = dy - fx_clamp_spec(dy, -(a.half_size.y as int), a.half_size.y as int);
    ex * ex + ey * ey <= (c.radius as int) * (c.radius as int)
}

/// The box carried into world space: the center rotated then translated, the
/// half-extents widened to bound the rotated box.
pub open spec fn aabb_transformed_spec(a: Aabb2d, translation: Vec2, rotation: Rot2) -> Aabb2d {
    Aabb2d {
        center: vec2_add_spec(rotate_vec_spec(rotation, a.center), translation),
        half_size: vec2_spec(
            fx_mul_spec(fx_abs(rotation.cos as int), a.half_size.x as int) + fx_mul_spec(
                fx_abs(rotation.sin as int),
                a.half_size.y as int,
            ),
            fx_mul_spec(fx_abs(rotation.sin as int), a.half_size.x as int) + fx_mul_spec(
                fx_abs(rotation.cos as int),
                a.half_size.y as int,
            ),
        ),
    }
}

/// The circle carried into world space: the center rotated then translated,
/// the radius unchanged.
pub open spec fn circle_transformed_spec(
    c: BoundingCircle,
    translation: Vec2,
    rotation: Rot2,
) -> BoundingCircle {
    BoundingCircle {
        center: vec2_add_spec(rotate_vec_spec(rotation, c.center), translation),
        radius: c.radius,
    }
}

impl Aabb2d {
    /// A box from its center and half-extents. Negative half-extents are a
    /// programming error and are excluded here.
    pub fn new(center: Vec2, half_size: Vec2) -> (r: Aabb2d)
        requires
            0 <= half_size.x as int <= FX_LIMIT as int,
            0 <= half_size.y as int <= FX_LIMIT as int,
            fx_abs(center.x as int) <= FX_LIMIT as int,
            fx_abs(center.y as int) <= FX_LIMIT as int,
        ensures
            r == (Aabb2d { center, half_size }),
            aabb_wf(r),
    {
        Aabb2d { center, half_size }
    }

    /// Whether this box overlaps another.
    pub fn intersects(&self, other: &Aabb2d) -> (r: bool)
        requires
            aabb_geo(*self),
            aabb_geo(*other),
        ensures
            r == aabb_aabb_intersects_spec(*self, *other),
    {
        let dx: i64 = fx_abs_exec(other.center.x - self.center.x);
        let dy: i64 = fx_abs_exec(other.center.y - self.center.y);
        dx <= self.half_size.x + other.half_size.x && dy <= self.half_size.y + other.half_size.y
    }

    /// Whether this box overlaps a circle.
    pub fn intersects_circle(&self, circle: &BoundingCircle) -> (r: bool)
        requires
            aabb_geo(*self),
            circle_geo(*circle),
        ensures
            r == aabb_circle_intersects_spec(*self, *circle),
    {
        let dx: i64 = circle.center.x - self.center.x;
        let dy: i64 = circle.center.y - self.center.y;
        let ex: i64 = dx - fx_clamp(dx, -self.half_size.x, self.half_size.x);
        let ey: i64 = dy - fx_clamp(dy, -self.half_size.y, self.half_size.y);
        let d2: i128 = mul_wide(ex as i128, ex as i128) + mul_wide(ey as i128, ey as i128);
        let r2: i128 = mul_wide(circle.radius as i128, circle.radius as i128);
        d2 <= r2
    }

    /// The box carried into world space by an entity's position and rotation.
    pub fn transformed_by(&self, translation: Vec2, rotation: Rot2) -> (r: Aabb2d)
        requires
            aabb_wf(*self),
            rot2_wf(rotation),
            fx_abs(translation.x as int) <= FX_LIMIT as int,
            fx_abs(translation.y as int) <= FX_LIMIT as int,
        ensures
            r == aabb_transformed_spec(*self, translation, rotation),
            aabb_geo(r),
    {
        let rc: Vec2 = rotation.rotate(self.center);
        proof {
            let ac = fx_abs(rotation.cos as int);
            let asn = fx_abs(rotation.sin as int);
            lemma_fx_mul_bound(ac, self.half_size.x as int, FX_ONE as int, FX_LIMIT as int);
            lemma_fx_mul_bound(asn, self.half_size.y as int, FX_ONE as int, FX_LIMIT as int);
            lemma_fx_mul_bound(asn, self.half_size.x as int, FX_ONE as int, FX_LIMIT as int);
            lemma_fx_mul_bound(ac, self.half_size.y as int, FX_ONE as int, FX_LIMIT as int);
        }
        let ac: i64 = fx_abs_exec(rotation.cos);
        let asn: i64 = fx_abs_exec(rotation.sin);
        let hx: i64 = fx_mul(ac, self.half_size.x) + fx_mul(asn, self.half_size.y);
        let hy: i64 = fx_mul(asn, self.half_size.x) + fx_mul(ac, self.half_size.y);
        Aabb2d {
            center: Vec2 { x: rc.x + translation.x, y: rc.y + translation.y },
            half_size: Vec2 { x: hx, y: hy },
        }
    }

    /// The box scaled uniformly about its own center.
    pub fn scale_around_center(&self, scale: i64) -> (r: Aabb2d)
        requires
            aabb_wf(*self),
            0 <= scale,
            fx_mul_spec(scale as int, self.half_size.x as int) <= FX_LIMIT as int,
            fx_mul_spec(scale as int, self.half_size.y as int) <= FX_LIMIT as int,
            scale * self.half_size.x <= 92_000_000_000_000_000_000_000,
            scale * self.half_size.y <= 92_000_000_000_000_000_000_000,
        ensures
            r.center == self.center,
            r.half_size.x == fx_mul_spec(scale as int, self.half_size.x as int),
            r.half_size.y == fx_mul_spec(scale as int, self.half_size.y as int),
            aabb_wf(r),
    {
        proof {
            crate::fxmath::lemma_abs_mul(scale as int, self.half_size.x as int);
            crate::fxmath::lemma_abs_mul(scale as int, self.half_size.y as int);
            crate::fxmath::lemma_tdiv_abs(scale * self.half_size.x, FX_ONE as int);
            crate::fxmath::lemma_tdiv_abs(scale * self.half_size.y, FX_ONE as int);
            vstd::arithmetic::div_mod::lemma_div_pos_is_pos(
                scale * self.half_size.x,
                FX_ONE as int,
            );
            vstd::arithmetic::div_mod::lemma_div_pos_is_pos(
                scale * self.half_size.y,
                FX_ONE as int,
            );
        }
        Aabb2d {
            center: self.center,
            half_size: Vec2 {
                x: fx_mul(scale, self.half_size.x),
                y: fx_mul(scale, self.half_size.y),
            },
        }
    }
}

impl BoundingCircle {
    /// A circle from its center and radius. A negative radius is a
    /// programming error and is excluded here.
    pub fn new(center: Vec2, radius: i64) -> (r: BoundingCircle)
        requires
            0 <= radius as int <= FX_LIMIT as int,
            fx_abs(center.x as int) <= FX_LIMIT as int,
            fx_abs(center.y as int) <= FX_LIMIT as int,
        ensures
            r == (BoundingCircle { center, radius }),
            circle_wf(r),
    {
        BoundingCircle { center, radius }
    }

    /// Whether this circle overlaps another.
    pub fn intersects(&self, other: &BoundingCircle) -> (r: bool)
        requires
            circle_geo(*self),
            circle_geo(*other),
        ensures
            r == circle_circle_intersects_spec(*self, *other),
    {
        let dx: i64 = other.center.x - self.center.x;
        let dy: i64 = other.center.y - self.center.y;
        let d2: i128 = mul_wide(dx as i128, dx as i128) + mul_wide(dy as i128, dy as i128);
        let rsum: i64 = self.radius + other.radius;
        let r2: i128 = mul_wide(rsum as i128, rsum as i128);
        d2 <= r2
    }

    /// Whether this circle overlaps an axis-aligned box.
    pub fn intersects_aabb(&self, aabb: &Aabb2d) -> (r: bool)
        requires
            circle_geo(*self),
            aabb_geo(*aabb),
        ensures
            r == aabb_circle_intersects_spec(*aabb, *self),
    {
        aabb.intersects_circle(self)
    }

    /// The circle carried into world space by an entity's position and
    /// rotation.
    pub fn transformed_by(&self, translation: Vec2, rotation: Rot2) -> (r: BoundingCircle)
        requires
            circle_wf(*self),
            rot2_wf(rotation),
            fx_abs(translation.x as int) <= FX_LIMIT as int,
            fx_abs(translation.y as int) <= FX_LIMIT as int,
        ensures
            r == circle_transformed_spec(*self, translation, rotation),
            circle_geo(r),
    {
        let rc: Vec2 = rotation.rotate(self.center);
        BoundingCircle {
            center: Vec2 { x: rc.x + translation.x, y: rc.y + translation.y },
            radius: self.radius,
        }
    }

    /// The circle scaled uniformly about its own center.
    pub fn scale_around_center(&self, scale: i64) -> (r: BoundingCircle)
        requires
            circle_wf(*self),
            0 <= scale,
            fx_mul_spec(scale as int, self.radius as int) <= FX_LIMIT as int,
            scale * self.radius <= 92_000_000_000_000_000_000_000,
        ensures
            r.center == self.center,
            r.radius == fx_mul_spec(scale as int, self.radius as int),
            circle_wf(r),
    {
        proof {
            crate::fxmath::lemma_abs_mul(scale as int, self.radius as int);
            crate::fxmath::lemma_tdiv_abs(scale * self.radius, FX_ONE as int);
            vstd::arithmetic::div_mod::lemma_div_pos_is_pos(scale * self.radius, FX_ONE as int);
        }
        BoundingCircle { center: self.center, radius: fx_mul(scale, self.radius) }
    }
}

} // verus!
