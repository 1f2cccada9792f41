use asteroid_physics::bounding::{Aabb2d, BoundingCircle};
use asteroid_physics::collision::Shape;
use asteroid_physics::fxmath::FX_ONE;
use asteroid_physics::obb::Obb2d;
use asteroid_physics::rot2::{fx_cos, fx_sin, Rot2};
use asteroid_physics::vec2::Vec2;

fn fx(units: i64) -> i64 {
    units * FX_ONE
}

#[test]
fn circles_overlap_at_distance_fifteen() {
    let a = BoundingCircle::new(Vec2::new(0, 0), fx(10));
    let b = BoundingCircle::new(Vec2::new(fx(15), 0), fx(10));
    assert!(a.intersects(&b));
    assert!(b.intersects(&a));
}

#[test]
fn circles_apart_at_distance_twenty_five() {
    let a = BoundingCircle::new(Vec2::new(0, 0), fx(10));
    let b = BoundingCircle::new(Vec2::new(fx(25), 0), fx(10));
    assert!(!a.intersects(&b));
    assert!(!b.intersects(&a));
}

#[test]
fn trig_table_is_exact() {
    assert_eq!((fx_sin(0), fx_cos(0)), (0, 10_000));
    assert_eq!((fx_sin(7_854), fx_cos(7_854)), (7_071, 7_071));
    assert_eq!((fx_sin(15_708), fx_cos(15_708)), (10_000, 0));
    assert_eq!((fx_sin(31_416), fx_cos(31_416)), (0, -10_000));
    assert_eq!((fx_sin(-7_854), fx_cos(-7_854)), (-7_071, 7_071));
    // one full turn away gives the same pair
    assert_eq!((fx_sin(70_686), fx_cos(70_686)), (7_071, 7_071));
    assert_eq!((fx_sin(5_000), fx_cos(5_000)), (4_794, 8_776));
}

#[test]
fn rotated_obb_corner_reaches_aabb() {
    // A box of half-size 10 rotated 45 degrees reaches past x = 14; the
    // unrotated box of the same size does not.
    let rotated = Obb2d::new(Vec2::new(0, 0), Vec2::new(fx(10), fx(10)), Rot2::from_angle(7_854));
    let probe = Aabb2d::new(Vec2::new(fx(14), 0), Vec2::new(fx(1), fx(1)));
    assert!(rotated.intersects_aabb(&probe));

    let straight = Obb2d::new(Vec2::new(0, 0), Vec2::new(fx(10), fx(10)), Rot2::identity());
    assert!(!straight.intersects_aabb(&probe));
}

#[test]
fn rotated_obb_from_cos_sin_matches_from_angle() {
    let a = Rot2::from_angle(7_854);
    let b = Rot2::from_cos_sin(7_071, 7_071);
    assert_eq!(a, b);
}

#[test]
fn obb_intersection_is_symmetric() {
    let a = Obb2d::new(Vec2::new(0, 0), Vec2::new(fx(10), fx(10)), Rot2::from_angle(7_854));
    let b = Obb2d::new(Vec2::new(fx(14), 0), Vec2::new(fx(1), fx(1)), Rot2::from_angle(3_000));
    let c = Obb2d::new(Vec2::new(fx(40), 0), Vec2::new(fx(1), fx(1)), Rot2::from_angle(3_000));
    assert_eq!(a.intersects(&b), b.intersects(&a));
    assert!(a.intersects(&b));
    assert_eq!(a.intersects(&c), c.intersects(&a));
    assert!(!a.intersects(&c));
}

#[test]
fn shape_intersection_symmetric_across_variants() {
    let aabb = Shape::Aabb(Aabb2d::new(Vec2::new(0, 0), Vec2::new(fx(5), fx(5))));
    let obb = Shape::Obb(Obb2d::new(
        Vec2::new(fx(6), 0),
        Vec2::new(fx(2), fx(2)),
        Rot2::from_angle(7_854),
    ));
    let circle = Shape::Circle(BoundingCircle::new(Vec2::new(0, fx(6)), fx(2)));
    let far_circle = Shape::Circle(BoundingCircle::new(Vec2::new(0, fx(60)), fx(2)));
    let pairs = [
        (aabb, obb),
        (aabb, circle),
        (obb, circle),
        (aabb, far_circle),
        (obb, far_circle),
        (circle, far_circle),
    ];
    for (s1, s2) in pairs {
        assert_eq!(s1.intersects(&s2), s2.intersects(&s1));
    }
    assert!(aabb.intersects(&obb));
    assert!(aabb.intersects(&circle));
    assert!(!aabb.intersects(&far_circle));
}

#[test]
fn unrotated_obb_matches_aabb() {
    let obb = Shape::Obb(Obb2d::new(
        Vec2::new(fx(3), fx(4)),
        Vec2::new(fx(5), fx(2)),
        Rot2::identity(),
    ));
    let aabb = Shape::Aabb(Aabb2d::new(Vec2::new(fx(3), fx(4)), Vec2::new(fx(5), fx(2))));
    let probes = [
        Shape::Aabb(Aabb2d::new(Vec2::new(fx(9), fx(4)), Vec2::new(fx(1), fx(1)))),
        Shape::Aabb(Aabb2d::new(Vec2::new(fx(12), fx(4)), Vec2::new(fx(1), fx(1)))),
        Shape::Obb(Obb2d::new(Vec2::new(0, 0), Vec2::new(fx(1), fx(1)), Rot2::from_angle(7_854))),
        Shape::Circle(BoundingCircle::new(Vec2::new(fx(3), fx(8)), fx(3))),
        Shape::Circle(BoundingCircle::new(Vec2::new(fx(3), fx(20)), fx(3))),
    ];
    for probe in probes {
        assert_eq!(obb.intersects(&probe), aabb.intersects(&probe));
        assert_eq!(probe.intersects(&obb), probe.intersects(&aabb));
    }
}

#[test]
fn aabb_interval_overlap() {
    let a = Aabb2d::new(Vec2::new(0, 0), Vec2::new(fx(2), fx(2)));
    let touching = Aabb2d::new(Vec2::new(fx(4), 0), Vec2::new(fx(2), fx(2)));
    let apart = Aabb2d::new(Vec2::new(fx(5), 0), Vec2::new(fx(2), fx(2)));
    let diagonal = Aabb2d::new(Vec2::new(fx(3), fx(5)), Vec2::new(fx(2), fx(2)));
    assert!(a.intersects(&touching));
    assert!(!a.intersects(&apart));
    assert!(!a.intersects(&diagonal));
}

#[test]
fn aabb_circle_closest_point() {
    let a = Aabb2d::new(Vec2::new(0, 0), Vec2::new(fx(2), fx(2)));
    // circle near the corner: corner (2,2), center (4,4): gap is 2*sqrt(2) > 2.5
    let near = BoundingCircle::new(Vec2::new(fx(4), fx(4)), 25_000);
    assert!(!a.intersects_circle(&near));
    // radius 3 reaches the corner
    let reaching = BoundingCircle::new(Vec2::new(fx(4), fx(4)), fx(3));
    assert!(a.intersects_circle(&reaching));
    assert!(reaching.intersects_aabb(&a));
}

#[test]
fn transform_rotates_then_translates() {
    // 90 degrees: cos 0, sin 1
    let rot = Rot2::from_angle(15_708);
    let a = Aabb2d::new(Vec2::new(fx(1), 0), Vec2::new(fx(2), fx(1)));
    let moved = a.transformed_by(Vec2::new(5_000, 5_000), rot);
    assert_eq!(moved.center, Vec2::new(5_000, 15_000));
    assert_eq!(moved.half_size, Vec2::new(fx(1), fx(2)));

    let c = BoundingCircle::new(Vec2::new(fx(1), 0), fx(3));
    let moved_c = c.transformed_by(Vec2::new(5_000, 5_000), rot);
    assert_eq!(moved_c.center, Vec2::new(5_000, 15_000));
    assert_eq!(moved_c.radius, fx(3));

    let o = Obb2d::new(Vec2::new(fx(1), 0), Vec2::new(fx(2), fx(1)), Rot2::identity());
    let moved_o = o.transformed_by(Vec2::new(5_000, 5_000), rot);
    assert_eq!(moved_o.center, Vec2::new(5_000, 15_000));
    assert_eq!(moved_o.half_size, Vec2::new(fx(2), fx(1)));
    assert_eq!(moved_o.rotation, Rot2::from_cos_sin(0, 10_000));
}

#[test]
fn scaled_shapes_scale_extents_only() {
    let c = Shape::Circle(BoundingCircle::new(Vec2::new(fx(1), fx(2)), fx(3)));
    match c.scaled(2 * FX_ONE) {
        Shape::Circle(sc) => {
            assert_eq!(sc.center, Vec2::new(fx(1), fx(2)));
            assert_eq!(sc.radius, fx(6));
        }
        _ => panic!("variant changed"),
    }
    let a = Shape::Aabb(Aabb2d::new(Vec2::new(0, 0), Vec2::new(fx(2), fx(4))));
    match a.scaled(FX_ONE / 2) {
        Shape::Aabb(sa) => {
            assert_eq!(sa.half_size, Vec2::new(fx(1), fx(2)));
        }
        _ => panic!("variant changed"),
    }
}

#[test]
fn zero_scale_degrades_gracefully() {
    let c = Shape::Circle(BoundingCircle::new(Vec2::new(fx(1), 0), fx(3))).scaled(0);
    let container = Shape::Aabb(Aabb2d::new(Vec2::new(0, 0), Vec2::new(fx(2), fx(2))));
    // a point circle inside the box still reports the overlap
    assert!(c.intersects(&container));
    let outside = Shape::Aabb(Aabb2d::new(Vec2::new(fx(5), 0), Vec2::new(fx(2), fx(2))));
    assert!(!c.intersects(&outside));
}
