use asteroid_physics::fxmath::FX_ONE;
use asteroid_physics::movement::{
    extrapolate_transform, physics_fixed_movement_system, Movement, RenderTransform,
};
use asteroid_physics::plugin::FixedTimestep;
use asteroid_physics::vec2::Vec2;

fn fx(units: i64) -> i64 {
    units * FX_ONE
}

fn at_rest() -> Movement {
    Movement {
        position: Vec2::new(0, 0),
        velocity: Vec2::new(0, 0),
        acceleration: Vec2::new(0, 0),
        rotation: 0,
        angular_velocity: 0,
        friction: 0,
        max_speed: fx(100_000),
    }
}

#[test]
fn integrator_accelerates_and_moves() {
    let mut m = at_rest();
    m.acceleration = Vec2::new(fx(1), 0);
    let dt = fx(1);
    m.step(dt);
    assert_eq!(m.velocity, Vec2::new(fx(1), 0));
    assert_eq!(m.position, Vec2::new(fx(1), 0));
    m.step(dt);
    assert_eq!(m.velocity, Vec2::new(fx(2), 0));
    assert_eq!(m.position, Vec2::new(fx(3), 0));
    m.step(dt);
    assert_eq!(m.velocity, Vec2::new(fx(3), 0));
    assert_eq!(m.position, Vec2::new(fx(6), 0));
}

#[test]
fn integrator_turns_by_angular_velocity() {
    let mut m = at_rest();
    m.angular_velocity = 7_854;
    m.step(fx(1));
    assert_eq!(m.rotation, 7_854);
    m.step(5_000);
    assert_eq!(m.rotation, 7_854 + 3_927);
}

#[test]
fn speed_clamp_scales_back_to_cap() {
    // a 3-4-5 triangle: speed 50 clamped to 25 keeps the direction exactly
    let v = Vec2::new(fx(30), fx(40)).clamp_length_max(fx(25));
    assert_eq!(v, Vec2::new(fx(15), fx(20)));
    // already under the cap: unchanged
    let w = Vec2::new(fx(3), fx(4)).clamp_length_max(fx(25));
    assert_eq!(w, Vec2::new(fx(3), fx(4)));
}

#[test]
fn speed_converges_to_cap_and_never_exceeds_it() {
    // friction 0.05, acceleration (100, 0), max_speed 50, from rest
    let mut m = at_rest();
    m.acceleration = Vec2::new(fx(100), 0);
    m.friction = 500;
    m.max_speed = fx(50);
    let dt = 1_000;
    let cap = (fx(50) as i128) * (fx(50) as i128);
    for _ in 0..100 {
        m.step(dt);
        let ls = (m.velocity.x as i128) * (m.velocity.x as i128)
            + (m.velocity.y as i128) * (m.velocity.y as i128);
        assert!(ls <= cap);
    }
    assert_eq!(m.velocity, Vec2::new(fx(50), 0));
}

#[test]
fn integrator_is_deterministic_across_entities() {
    let mut a = at_rest();
    a.acceleration = Vec2::new(fx(7), fx(-3));
    a.friction = 250;
    a.angular_velocity = 1_234;
    let mut b = a;
    let mut list = vec![a, a, a];
    for _ in 0..50 {
        a.step(1_000);
    }
    for _ in 0..50 {
        b.step(1_000);
    }
    for _ in 0..50 {
        physics_fixed_movement_system(&mut list, 1_000);
    }
    assert_eq!(a, b);
    for m in list {
        assert_eq!(m, a);
    }
}

#[test]
fn direction_follows_rotation() {
    let mut m = at_rest();
    assert_eq!(m.get_direction(), Vec2::new(0, 10_000));
    m.rotation = 15_708;
    assert_eq!(m.get_direction(), Vec2::new(-10_000, 0));
    m.rotation = 7_854;
    assert_eq!(m.get_direction(), Vec2::new(-7_071, 7_071));
}

#[test]
fn extrapolation_at_zero_overstep_is_last_pose() {
    let mut m = at_rest();
    m.position = Vec2::new(fx(1), fx(2));
    m.velocity = Vec2::new(fx(3), fx(-4));
    m.rotation = 7_854;
    m.angular_velocity = 31_416;
    let r = extrapolate_transform(&m, 1_000, 0);
    assert_eq!(
        r,
        RenderTransform { translation: Vec2::new(fx(1), fx(2)), rotation: 7_854 }
    );
}

#[test]
fn extrapolation_approaches_next_pose() {
    let mut m = at_rest();
    m.position = Vec2::new(fx(1), fx(2));
    m.velocity = Vec2::new(fx(3), fx(-4));
    m.rotation = 7_854;
    m.angular_velocity = 31_416;
    let half = extrapolate_transform(&m, 1_000, 5_000);
    assert_eq!(
        half,
        RenderTransform { translation: Vec2::new(11_500, 18_000), rotation: 9_424 }
    );
    let full = extrapolate_transform(&m, 1_000, FX_ONE);
    assert_eq!(
        full,
        RenderTransform { translation: Vec2::new(13_000, 16_000), rotation: 10_995 }
    );
}

#[test]
fn extrapolation_leaves_movement_unchanged() {
    let mut m = at_rest();
    m.position = Vec2::new(fx(1), fx(2));
    m.velocity = Vec2::new(fx(3), fx(-4));
    let before = m;
    let _ = extrapolate_transform(&m, 1_000, 5_000);
    assert_eq!(m, before);
}

#[test]
fn fixed_timestep_accumulates_and_oversteps() {
    let mut t = FixedTimestep::new(1_000);
    assert_eq!(t.fixed_dt(), 1_000);
    assert_eq!(t.advance(2_500), 2);
    assert_eq!(t.overstep_fraction(), 5_000);
    assert_eq!(t.advance(400), 0);
    assert_eq!(t.overstep_fraction(), 9_000);
    assert_eq!(t.advance(100), 1);
    assert_eq!(t.overstep_fraction(), 0);
}

#[test]
fn default_movement_is_at_rest() {
    let m = Movement::default();
    assert_eq!(m.position, Vec2::new(0, 0));
    assert_eq!(m.velocity, Vec2::new(0, 0));
    assert_eq!(m.friction, 0);
    assert!(m.max_speed > 0);
}

#[test]
fn extrapolation_pass_covers_every_entity() {
    let mut a = at_rest();
    a.velocity = Vec2::new(fx(3), fx(-4));
    let mut b = at_rest();
    b.position = Vec2::new(fx(1), fx(2));
    let poses = asteroid_physics::movement::physics_transform_extrapolate_system(
        &vec![a, b],
        1_000,
        5_000,
    );
    assert_eq!(poses.len(), 2);
    assert_eq!(poses[0].translation, Vec2::new(1_500, -2_000));
    assert_eq!(poses[1].translation, Vec2::new(fx(1), fx(2)));
}
