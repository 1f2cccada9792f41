//! Oriented bounding boxes and the separating-axis intersection test.
//!
//! The test is the closed form of the separating axis theorem for two boxes
//! in the plane: the four candidate axes are the local axes of the two boxes,
//! and on each axis the distance of the centers is compared against the sum
//! of the projection radii. No rescaling division occurs inside the test, so
//! it decides overlap of the fixed-point boxes exactly.

use vstd::prelude::*;

use crate::bounding::{aabb_circle_intersects_spec, Aabb2d, BoundingCircle};
use crate::fxmath::{
    fx_abs, fx_clamp, fx_clamp_spec, fx_mul, fx_mul_spec, lemma_fx_mul_bound, mul_wide, FX_LIMIT,
    FX_ONE, GEO_LIMIT,
};
use crate::rot2::{rot2_bounded, rot2_wf, rot_mul_spec, rotate_vec_spec, Rot2, ROT_LIMIT};
use crate::vec2::{vec2_add_spec, Vec2};

verus! {

/// A 2D oriented bounding box.
#[derive(Clone, Copy, PartialEq, Eq, Structural, Debug)]
pub struct Obb2d {
    pub center: Vec2,
    pub half_size: Vec2,
    pub rotation: Rot2,
}

/// A well-formed stored box: nonnegative half-extents, parts within the
/// storage bound, a unit-grade rotation.
pub open spec fn obb_wf(o: Obb2d) -> bool {
    &&& 0 <= o.half_size.x as int <= FX_LIMIT as int
    &&& 0 <= o.half_size.y as int <= FX_LIMIT as int
    &&& fx_abs(o.center.x as int) <= FX_LIMIT as int
    &&& fx_abs(o.center.y as int) <= FX_LIMIT as int
    &&& rot2_wf(o.rotation)
}

/// A box the intersection tests accept: what one world-space transform of a
/// well-formed box can reach.
pub open spec fn obb_geo(o: Obb2d) -> bool {
    &&& 0 <= o.half_size.x as int <= GEO_LIMIT as int
    &&& 0 <= o.half_size.y as int <= GEO_LIMIT as int
    &&& fx_abs(o.center.x as int) <= GEO_LIMIT as int
    &&& fx_abs(o.center.y as int) <= GEO_LIMIT as int
    &&& rot2_bounded(o.rotation)
}

/// The dot product of two integer vectors.
pub open spec fn dot2(ax: int, ay: int, bx: int, by: int) -> int {
    ax * bx + ay * by
}

/// The projection radius of a box on an axis: the reach of its two scaled
/// local axes, projected onto that axis.
pub open spec fn proj_radius_spec(o: Obb2d, ax: int, ay: int) -> int {
    (o.half_size.x as int) * fx_abs(
        dot2(o.rotation.cos as int, o.rotation.sin as int, ax, ay),
    ) + (o.half_size.y as int) * fx_abs(
        dot2(-(o.rotation.sin as int), o.rotation.cos as int, ax, ay),
    )
}

/// Whether the projections of two boxes onto an axis overlap: the projected
/// distance of the centers (rescaled by `FX_ONE` to match the radius scale)
/// is at most the sum of the projection radii.
pub open spec fn overlap_on_axis_spec(a: Obb2d, b: Obb2d, ax: int, ay: int) -> bool {
    (FX_ONE as int) * fx_abs(
        dot2(b.center.x - a.center.x, b.center.y - a.center.y, ax, ay),
    ) <= proj_radius_spec(a, ax, ay) + proj_radius_spec(b, ax, ay)
}

/// The separating axis theorem for two boxes in the plane: they intersect
/// iff no local axis of either box separates their projections.
pub open spec fn obb_obb_intersects_spec(a: Obb2d, b: Obb2d) -> bool {
    &&& overlap_on_axis_spec(a, b, a.rotation.cos as int, a.rotation.sin as int)
    &&& overlap_on_axis_spec(a, b, -(a.rotation.sin as int), a.rotation.cos as int)
    &&& overlap_on_axis_spec(a, b, b.rotation.cos as int, b.rotation.sin as int)
    &&& overlap_on_axis_spec(a, b, -(b.rotation.sin as int), b.rotation.cos as int)
}

/// An axis-aligned box read as an oriented box with no rotation.
pub open spec fn obb_from_aabb_spec(a: Aabb2d) -> Obb2d {
    Obb2d {
        center: a.center,
        half_size: a.half_size,
        rotation: Rot2 { cos: FX_ONE, sin: 0i64 },
    }
}

/// A box and a circle overlap iff the circle's center, carried into the
/// box's local frame by the inverse rotation, clamped into the half-extents,
/// stays within the radius of where it started.
pub open spec fn obb_circle_intersects_spec(o: Obb2d, c: BoundingCircle) -> bool {
    let dx = c.center.x - o.center.x;
    let dy = c.center.y - o.center.y;
    let lx = fx_mul_spec(o.rotation.cos as int, dx) + fx_mul_spec(o.rotation.sin as int, dy);
    let ly = fx_mul_spec(o.rotation.cos as int, dy) - fx_mul_spec(o.rotation.sin as int, dx);
    let ex = lx - fx_clamp_spec(lx, -(o.half_size.x as int), o.half_size.x as int);
    let ey = ly - fx_clamp_spec(ly, -(o.half_size.y as int), o.half_size.y as int);
    ex * ex + ey * ey <= (c.radius as int) * (c.radius as int)
}

/// The box carried into world space: the center rotated then translated, the
/// rotation composed, the half-extents unchanged.
pub open spec fn obb_transformed_spec(o: Obb2d, translation: Vec2, rotation: Rot2) -> Obb2d {
    Obb2d {
        center: vec2_add_spec(rotate_vec_spec(rotation, o.center), translation),
        half_size: o.half_size,
        rotation: rot_mul_spec(rotation, o.rotation),
    }
}

/// One axis test of the separating axis theorem.
fn overlap_on_axis_2d(a: &Obb2d, b: &Obb2d, ax: i64, ay: i64) -> (r: bool)
    requires
        obb_geo(*a),
        obb_geo(*b),
        fx_abs(ax as int) <= ROT_LIMIT as int,
        fx_abs(ay as int) <= ROT_LIMIT as int,
    ensures
        r == overlap_on_axis_spec(*a, *b, ax as int, ay as int),
{
    let dx: i128 = (b.center.x as i128) - (a.center.x as i128);
    let dy: i128 = (b.center.y as i128) - (a.center.y as i128);
    let tx: i128 = mul_wide(dx, ax as i128);
    let ty: i128 = mul_wide(dy, ay as i128);
    proof {
        assert(-160_000_000_000_000_000 <= tx <= 160_000_000_000_000_000
            && -160_000_000_000_000_000 <= ty <= 160_000_000_000_000_000) by (nonlinear_arith)
            requires
                tx == dx * (ax as int),
                ty == dy * (ay as int),
                -8_000_000_000_000 <= dx <= 8_000_000_000_000,
                -8_000_000_000_000 <= dy <= 8_000_000_000_000,
                -20_000 <= ax as int <= 20_000,
                -20_000 <= ay as int <= 20_000,
        ;
    }
    let t: i128 = tx + ty;
    let ta: i128 = if t < 0 {
        -t
    } else {
        t
    };
    let lhs: i128 = mul_wide(FX_ONE as i128, ta);
    let ra: i128 = proj_radius(a, ax, ay);
    let rb: i128 = proj_radius(b, ax, ay);
    lhs <= ra + rb
}

/// The projection radius of a box on an axis.
fn proj_radius(o: &Obb2d, ax: i64, ay: i64) -> (r: i128)
    requires
        obb_geo(*o),
        fx_abs(ax as int) <= ROT_LIMIT as int,
        fx_abs(ay as int) <= ROT_LIMIT as int,
    ensures
        r == proj_radius_spec(*o, ax as int, ay as int),
        0 <= r <= 13_000_000_000_000_000_000_000,
{
    let u1: i128 = mul_wide(o.rotation.cos as i128, ax as i128);
    let u2: i128 = mul_wide(o.rotation.sin as i128, ay as i128);
    let v1: i128 = mul_wide(-(o.rotation.sin as i128), ax as i128);
    let v2: i128 = mul_wide(o.rotation.cos as i128, ay as i128);
    proof {
        assert(-400_000_000 <= u1 <= 400_000_000 && -400_000_000 <= u2 <= 400_000_000
            && -400_000_000 <= v1 <= 400_000_000 && -400_000_000 <= v2 <= 400_000_000)
            by (nonlinear_arith)
            requires
                u1 == (o.rotation.cos as int) * (ax as int),
                u2 == (o.rotation.sin as int) * (ay as int),
                v1 == (-(o.rotation.sin as int)) * (ax as int),
                v2 == (o.rotation.cos as int) * (ay as int),
                -20_000 <= o.rotation.cos as int <= 20_000,
                -20_000 <= o.rotation.sin as int <= 20_000,
                -20_000 <= ax as int <= 20_000,
                -20_000 <= ay as int <= 20_000,
        ;
    }
    let du: i128 = u1 + u2;
    let dv: i128 = v1 + v2;
    let dua: i128 = if du < 0 {
        -du
    } else {
        du
    };
    let dva: i128 = if dv < 0 {
        -dv
    } else {
        dv
    };
    let px: i128 = mul_wide(o.half_size.x as i128, dua);
    let py: i128 = mul_wide(o.half_size.y as i128, dva);
    proof {
        assert(0 <= px <= 3_200_000_000_000_000_000_000
            && 0 <= py <= 3_200_000_000_000_000_000_000) by (nonlinear_arith)
            requires
                px == (o.half_size.x as int) * dua,
                py == (o.half_size.y as int) * dva,
                0 <= o.half_size.x as int <= 4_000_000_000_000,
                0 <= o.half_size.y as int <= 4_000_000_000_000,
                0 <= dua <= 800_000_000,
                0 <= dva <= 800_000_000,
        ;
    }
    px + py
}

impl Obb2d {
    /// A box from its center, half-extents and rotation. Negative
    /// half-extents are a programming error and are excluded here.
    pub fn new(center: Vec2, half_size: Vec2, rotation: Rot2) -> (r: Obb2d)
        requires
            0 <= half_size.x as int <= FX_LIMIT as int,
            0 <= half_size.y as int <= FX_LIMIT as int,
            fx_abs(center.x as int) <= FX_LIMIT as int,
            fx_abs(center.y as int) <= FX_LIMIT as int,
            rot2_wf(rotation),
        ensures
            r == (Obb2d { center, half_size, rotation }),
            obb_wf(r),
    {
        Obb2d { center, half_size, rotation }
    }

    /// Whether two oriented boxes intersect, by the separating axis theorem
    /// over the two local axes of each box.
    pub fn intersects(&self, obb: &Obb2d) -> (r: bool)
        requires
            obb_geo(*self),
            obb_geo(*obb),
        ensures
            r == obb_obb_intersects_spec(*self, *obb),
    {
        if !overlap_on_axis_2d(self, obb, self.rotation.cos, self.rotation.sin) {
            return false;
        }
        if !overlap_on_axis_2d(self, obb, -self.rotation.sin, self.rotation.cos) {
            return false;
        }
        if !overlap_on_axis_2d(self, obb, obb.rotation.cos, obb.rotation.sin) {
            return false;
        }
        if !overlap_on_axis_2d(self, obb, -obb.rotation.sin, obb.rotation.cos) {
            return false;
        }
        true
    }

    /// Whether this box intersects an axis-aligned box, read as an oriented
    /// box with no rotation.
    pub fn intersects_aabb(&self, aabb: &Aabb2d) -> (r: bool)
        requires
            obb_geo(*self),
            crate::bounding::aabb_geo(*aabb),
        ensures
            r == obb_obb_intersects_spec(*self, obb_from_aabb_spec(*aabb)),
    {
        let other = Obb2d {
            center: aabb.center,
            half_size: aabb.half_size,
            rotation: Rot2::identity(),
        };
        self.intersects(&other)
    }

    /// Whether this box intersects a circle, by the closest-point method in
    /// the box's local frame.
    pub fn intersects_circle(&self, circle: &BoundingCircle) -> (r: bool)
        requires
            obb_geo(*self),
            crate::bounding::circle_geo(*circle),
        ensures
            r == obb_circle_intersects_spec(*self, *circle),
    {
        let dx: i64 = circle.center.x - self.center.x;
        let dy: i64 = circle.center.y - self.center.y;
        proof {
            lemma_fx_mul_bound(self.rotation.cos as int, dx as int, ROT_LIMIT as int, 8_000_000_000_000);
            lemma_fx_mul_bound(self.rotation.sin as int, dy as int, ROT_LIMIT as int, 8_000_000_000_000);
            lemma_fx_mul_bound(self.rotation.cos as int, dy as int, ROT_LIMIT as int, 8_000_000_000_000);
            lemma_fx_mul_bound(self.rotation.sin as int, dx as int, ROT_LIMIT as int, 8_000_000_000_000);
        }
        let lx: i64 = fx_mul(self.rotation.cos, dx) + fx_mul(self.rotation.sin, dy);
        let ly: i64 = fx_mul(self.rotation.cos, dy) - fx_mul(self.rotation.sin, dx);
        let ex: i64 = lx - fx_clamp(lx, -self.half_size.x, self.half_size.x);
        let ey: i64 = ly - fx_clamp(ly, -self.half_size.y, self.half_size.y);
        let d2: i128 = mul_wide(ex as i128, ex as i128) + mul_wide(ey as i128, ey as i128);
        let r2: i128 = mul_wide(circle.radius as i128, circle.radius as i128);
        d2 <= r2
    }

    /// The box carried into world space by an entity's position and rotation.
    pub fn transformed_by(&self, translation: Vec2, rotation: Rot2) -> (r: Obb2d)
        requires
            obb_wf(*self),
            rot2_wf(rotation),
            fx_abs(translation.x as int) <= FX_LIMIT as int,
            fx_abs(translation.y as int) <= FX_LIMIT as int,
        ensures
            r == obb_transformed_spec(*self, translation, rotation),
            obb_geo(r),
    {
        let rc: Vec2 = rotation.rotate(self.center);
        Obb2d {
            center: Vec2 { x: rc.x + translation.x, y: rc.y + translation.y },
            half_size: self.half_size,
            rotation: rotation.mul(self.rotation),
        }
    }

    /// The box scaled uniformly about its own center.
    pub fn scale_around_center(&self, scale: i64) -> (r: Obb2d)
        requires
            obb_wf(*self),
            0 <= scale,
            fx_mul_spec(scale as int, self.half_size.x as int) <= FX_LIMIT as int,
            fx_mul_spec(scale as int, self.half_size.y as int) <= FX_LIMIT as int,
            scale * self.half_size.x <= 92_000_000_000_000_000_000_000,
            scale * self.half_size.y <= 92_000_000_000_000_000_000_000,
        ensures
            r.center == self.center,
            r.rotation == self.rotation,
            r.half_size.x == fx_mul_spec(scale as int, self.half_size.x as int),
            r.half_size.y == fx_mul_spec(scale as int, self.half_size.y as int),
            obb_wf(r),
    {
        proof {
            crate::fxmath::lemma_abs_mul(scale as int, self.half_size.x as int);
            crate::fxmath::lemma_abs_mul(scale as int, self.half_size.y as int);
            crate::fxmath::lemma_tdiv_abs(scale * self.half_size.x, FX_ONE as int);
            crate::fxmath::lemma_tdiv_abs(scale * self.half_size.y, FX_ONE as int);
            vstd::arithmetic::div_mod::lemma_div_pos_is_pos(
                scale * self.half_size.x,
                FX_ONE as int,
            );
            vstd::arithmetic::div_mod::lemma_div_pos_is_pos(
                scale * self.half_size.y,
                FX_ONE as int,
            );
        }
        Obb2d {
            center: self.center,
            half_size: Vec2 {
                x: fx_mul(scale, self.half_size.x),
                y: fx_mul(scale, self.half_size.y),
            },
            rotation: self.rotation,
        }
    }
}

/// One axis test is indifferent to the order of the two boxes: the center
/// offset only changes sign under the projection's absolute value, and the
/// radius sum commutes.
pub proof fn lemma_overlap_on_axis_symmetric(a: Obb2d, b: Obb2d, ax: int, ay: int)
    ensures
        overlap_on_axis_spec(a, b, ax, ay) == overlap_on_axis_spec(b, a, ax, ay),
{
    assert((a.center.x - b.center.x) * ax + (a.center.y - b.center.y) * ay == -((b.center.x
        - a.center.x) * ax + (b.center.y - a.center.y) * ay)) by (nonlinear_arith);
}

/// The separating axis test is symmetric: `a` against `b` decides exactly as
/// `b` against `a`, since both consult the same four axes.
pub proof fn lemma_obb_intersects_symmetric(a: Obb2d, b: Obb2d)
    ensures
        obb_obb_intersects_spec(a, b) == obb_obb_intersects_spec(b, a),
{
    lemma_overlap_on_axis_symmetric(a, b, a.rotation.cos as int, a.rotation.sin as int);
    lemma_overlap_on_axis_symmetric(a, b, -(a.rotation.sin as int), a.rotation.cos as int);
    lemma_overlap_on_axis_symmetric(a, b, b.rotation.cos as int, b.rotation.sin as int);
    lemma_overlap_on_axis_symmetric(a, b, -(b.rotation.sin as int), b.rotation.cos as int);
}

/// On the world x axis the separating axis test of two unrotated boxes is
/// the interval test of their x extents.
proof fn lemma_identity_axis_x(p: Aabb2d, q: Aabb2d)
    ensures
        overlap_on_axis_spec(obb_from_aabb_spec(p), obb_from_aabb_spec(q), FX_ONE as int, 0) == (
        fx_abs(q.center.x - p.center.x) <= p.half_size.x + q.half_size.x),
{
    let s = FX_ONE as int;
    let dx = q.center.x - p.center.x;
    let dy = q.center.y - p.center.y;
    let t = dot2(dx, dy, s, 0);
    assert(dx * s == 10000 * dx) by (nonlinear_arith)
        requires
            s == 10000,
    ;
    assert(t == 10000 * dx);
    let ta = fx_abs(t);
    assert(ta == 10000 * fx_abs(dx));
    assert(s * ta == 10000 * ta) by (nonlinear_arith)
        requires
            s == 10000,
    ;
    assert(s * s == 100000000) by (nonlinear_arith)
        requires
            s == 10000,
    ;
    assert(dot2(s, 0, s, 0) == 100000000);
    assert(dot2(-0, s, s, 0) == 0);
    assert(proj_radius_spec(obb_from_aabb_spec(p), s, 0) == (p.half_size.x as int) * 100000000 + (
    p.half_size.y as int) * 0);
    assert(proj_radius_spec(obb_from_aabb_spec(q), s, 0) == (q.half_size.x as int) * 100000000 + (
    q.half_size.y as int) * 0);
}

/// On the world y axis the separating axis test of two unrotated boxes is
/// the interval test of their y extents.
proof fn lemma_identity_axis_y(p: Aabb2d, q: Aabb2d)
    ensures
        overlap_on_axis_spec(obb_from_aabb_spec(p), obb_from_aabb_spec(q), -0, FX_ONE as int) == (
        fx_abs(q.center.y - p.center.y) <= p.half_size.y + q.half_size.y),
{
    let s = FX_ONE as int;
    let dx = q.center.x - p.center.x;
    let dy = q.center.y - p.center.y;
    let t = dot2(dx, dy, -0, s);
    assert(dy * s == 10000 * dy) by (nonlinear_arith)
        requires
            s == 10000,
    ;
    assert(t == 10000 * dy);
    let ta = fx_abs(t);
    assert(ta == 10000 * fx_abs(dy));
    assert(s * ta == 10000 * ta) by (nonlinear_arith)
        requires
            s == 10000,
    ;
    assert(s * s == 100000000) by (nonlinear_arith)
        requires
            s == 10000,
    ;
    assert(dot2(s, 0, -0, s) == 0);
    assert(dot2(-0, s, -0, s) == 100000000);
    assert(proj_radius_spec(obb_from_aabb_spec(p), -0, s) == (p.half_size.x as int) * 0 + (
    p.half_size.y as int) * 100000000);
    assert(proj_radius_spec(obb_from_aabb_spec(q), -0, s) == (q.half_size.x as int) * 0 + (
    q.half_size.y as int) * 100000000);
}

/// For two unrotated boxes the separating axis test degenerates to the
/// interval-overlap test of the axis-aligned boxes.
pub proof fn lemma_obb_identity_pair_is_aabb(p: Aabb2d, q: Aabb2d)
    ensures
        obb_obb_intersects_spec(obb_from_aabb_spec(p), obb_from_aabb_spec(q))
            == crate::bounding::aabb_aabb_intersects_spec(p, q),
{
    lemma_identity_axis_x(p, q);
    lemma_identity_axis_y(p, q);
}

/// For an unrotated box the local-frame circle test degenerates to the
/// axis-aligned closest-point test.
pub proof fn lemma_obb_identity_circle_is_aabb(a: Aabb2d, c: BoundingCircle)
    ensures
        obb_circle_intersects_spec(obb_from_aabb_spec(a), c) == aabb_circle_intersects_spec(a, c),
{
    let dx = c.center.x - a.center.x;
    let dy = c.center.y - a.center.y;
    crate::fxmath::lemma_fx_mul_whole(1, dx);
    crate::fxmath::lemma_fx_mul_whole(1, dy);
    crate::fxmath::lemma_fx_mul_whole(0, dx);
    crate::fxmath::lemma_fx_mul_whole(0, dy);
    assert(1 * (FX_ONE as int) == FX_ONE as int);
    assert(fx_mul_spec(FX_ONE as int, dx) == dx);
    assert(fx_mul_spec(FX_ONE as int, dy) == dy);
    assert(0 * (FX_ONE as int) == 0);
    assert(fx_mul_spec(0, dx) == 0);
    assert(fx_mul_spec(0, dy) == 0);
}

} // verus!
