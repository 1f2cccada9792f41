use asteroid_physics::actions::AsteroidAction;
use asteroid_physics::bounding::BoundingCircle;
use asteroid_physics::collision::{
    detect_between, Collider, CollisionEvent, CollisionLayers, LayerMask, PhysicsEntity, Shape,
};
use asteroid_physics::controller::{controller_move, input_action, Speed};
use asteroid_physics::fxmath::FX_ONE;
use asteroid_physics::layers::{ENEMY_MASK, PLAYER_MASK};
use asteroid_physics::movement::Movement;
use asteroid_physics::plugin::AsteroidPhysicsPlugin;
use asteroid_physics::ship::{player_move_input, ship_move, ShipAction, ShipMovement};
use asteroid_physics::vec2::Vec2;

fn fx(units: i64) -> i64 {
    units * FX_ONE
}

fn still_at(x: i64, y: i64) -> Movement {
    Movement {
        position: Vec2::new(x, y),
        velocity: Vec2::new(0, 0),
        acceleration: Vec2::new(0, 0),
        rotation: 0,
        angular_velocity: 0,
        friction: 0,
        max_speed: fx(100),
    }
}

fn circle_entity(id: u64, group: u32, x: i64, radius: i64) -> PhysicsEntity {
    PhysicsEntity {
        entity: id,
        group,
        collider: Collider::from_shape(Shape::Circle(BoundingCircle::new(
            Vec2::new(0, 0),
            radius,
        ))),
        layers: None,
        movement: Some(still_at(x, 0)),
    }
}

#[test]
fn layer_gating_requires_both_directions() {
    let a = CollisionLayers::new(LayerMask(0b01), LayerMask(0b10));
    let b = CollisionLayers::new(LayerMask(0b10), LayerMask(0b01));
    assert!(a.interact_with(&b));
    assert!(b.interact_with(&a));

    let a_no_members = CollisionLayers::new(LayerMask(0b00), LayerMask(0b10));
    assert!(!a_no_members.interact_with(&b));
    let a_no_filters = CollisionLayers::new(LayerMask(0b01), LayerMask(0b00));
    assert!(!a_no_filters.interact_with(&b));
    let b_no_members = CollisionLayers::new(LayerMask(0b00), LayerMask(0b01));
    assert!(!a.interact_with(&b_no_members));
    let b_no_filters = CollisionLayers::new(LayerMask(0b10), LayerMask(0b00));
    assert!(!a.interact_with(&b_no_filters));
}

#[test]
fn default_layers_interact_with_nothing() {
    let d = CollisionLayers::default();
    let open = CollisionLayers::new(LayerMask::all(), LayerMask::all());
    assert!(!d.interact_with(&open));
    assert!(!open.interact_with(&d));
}

#[test]
fn gameplay_masks_pair_player_with_enemy() {
    let player = CollisionLayers::new(LayerMask(PLAYER_MASK), LayerMask(ENEMY_MASK));
    let enemy = CollisionLayers::new(LayerMask(ENEMY_MASK), LayerMask(PLAYER_MASK));
    assert!(player.interact_with(&enemy));
    let other_player = CollisionLayers::new(LayerMask(PLAYER_MASK), LayerMask(ENEMY_MASK));
    assert!(!player.interact_with(&other_player));
}

#[test]
fn overlapping_pair_reports_one_event_per_pass() {
    let first = vec![circle_entity(1, 0, 0, fx(10))];
    let second = vec![circle_entity(2, 0, fx(15), fx(10))];
    let events = detect_between(&first, &second);
    assert_eq!(events.len(), 1);
    assert_eq!(events[0], CollisionEvent { first: 1, second: 2 });
    // a pass never deduplicates against earlier passes
    let again = detect_between(&first, &second);
    assert_eq!(again.len(), 1);
}

#[test]
fn disabled_collider_suppresses_event() {
    let mut a = circle_entity(1, 0, 0, fx(10));
    let b = circle_entity(2, 0, fx(15), fx(10));
    a.collider.enabled = false;
    assert_eq!(detect_between(&vec![a], &vec![b]).len(), 0);
    assert_eq!(detect_between(&vec![b], &vec![a]).len(), 0);
    a.collider.enabled = true;
    assert_eq!(detect_between(&vec![a], &vec![b]).len(), 1);
}

#[test]
fn separated_pair_reports_nothing() {
    let first = vec![circle_entity(1, 0, 0, fx(10))];
    let second = vec![circle_entity(2, 0, fx(25), fx(10))];
    assert_eq!(detect_between(&first, &second).len(), 0);
}

#[test]
fn same_entity_is_never_paired_with_itself() {
    let e = circle_entity(7, 0, 0, fx(10));
    assert_eq!(detect_between(&vec![e], &vec![e]).len(), 0);
}

#[test]
fn ineligible_layers_suppress_event() {
    let mut a = circle_entity(1, 0, 0, fx(10));
    let mut b = circle_entity(2, 0, fx(15), fx(10));
    a.layers = Some(CollisionLayers::new(LayerMask(0b01), LayerMask(0b10)));
    b.layers = Some(CollisionLayers::new(LayerMask(0b10), LayerMask(0b01)));
    assert_eq!(detect_between(&vec![a], &vec![b]).len(), 1);
    b.layers = Some(CollisionLayers::new(LayerMask(0b00), LayerMask(0b01)));
    assert_eq!(detect_between(&vec![a], &vec![b]).len(), 0);
}

#[test]
fn entity_without_movement_collides_in_place() {
    let mut fixed = circle_entity(1, 0, 0, fx(10));
    fixed.movement = None;
    fixed.collider = Collider::from_shape(Shape::Circle(BoundingCircle::new(
        Vec2::new(fx(15), 0),
        fx(10),
    )));
    let moving = circle_entity(2, 0, 0, fx(10));
    let events = detect_between(&vec![fixed], &vec![moving]);
    assert_eq!(events.len(), 1);
}

#[test]
fn events_list_every_pair_in_order() {
    let first = vec![circle_entity(1, 0, 0, fx(10)), circle_entity(2, 0, fx(5), fx(10))];
    let second = vec![circle_entity(3, 0, fx(15), fx(10)), circle_entity(4, 0, fx(100), fx(10))];
    let events = detect_between(&first, &second);
    assert_eq!(events.len(), 2);
    assert_eq!(events[0], CollisionEvent { first: 1, second: 3 });
    assert_eq!(events[1], CollisionEvent { first: 2, second: 3 });
}

#[test]
fn registered_pairs_scan_their_groups() {
    let plugin = AsteroidPhysicsPlugin::default().with_collisions_between(1, 2);
    let entities = vec![
        circle_entity(10, 1, 0, fx(10)),
        circle_entity(20, 2, fx(15), fx(10)),
        circle_entity(30, 3, fx(5), fx(10)),
    ];
    let events = plugin.detect(&entities);
    assert_eq!(events.len(), 1);
    assert_eq!(events[0], CollisionEvent { first: 10, second: 20 });

    let none = AsteroidPhysicsPlugin::default().detect(&entities);
    assert_eq!(none.len(), 0);
}

#[test]
fn controller_steers_and_accelerates() {
    let mut m = still_at(0, 0);
    let speed = Speed { movement_speed: fx(100), rotation_speed: fx(5) };
    let pressed = vec![AsteroidAction::Forward, AsteroidAction::TurnRight];
    controller_move(&mut m, &speed, &pressed);
    assert_eq!(m.angular_velocity, -fx(5));
    // facing up at rotation 0: acceleration straight up
    assert_eq!(m.acceleration, Vec2::new(0, fx(100)));
    assert_eq!(m.velocity, Vec2::new(0, 0));

    let released: Vec<AsteroidAction> = vec![];
    controller_move(&mut m, &speed, &released);
    assert_eq!(m.angular_velocity, 0);
    assert_eq!(m.acceleration, Vec2::new(0, 0));
}

#[test]
fn input_action_reports_held_actions() {
    let pressed = vec![AsteroidAction::Shoot, AsteroidAction::Backward];
    assert!(input_action(&pressed, AsteroidAction::Shoot));
    assert!(input_action(&pressed, AsteroidAction::Backward));
    assert!(!input_action(&pressed, AsteroidAction::Forward));
}

#[test]
fn ship_input_direction_sums_held_axes() {
    let pressed = vec![ShipAction::Forward, ShipAction::TurnLeft];
    assert_eq!(player_move_input(&pressed), Vec2::new(-FX_ONE, FX_ONE));
    let opposed = vec![ShipAction::Forward, ShipAction::Backward];
    assert_eq!(player_move_input(&opposed), Vec2::new(0, 0));
}

#[test]
fn ship_move_writes_movement_inputs() {
    let mut m = still_at(0, 0);
    m.rotation = 15_708;  // facing negative x
    let ship = ShipMovement {
        direction: Vec2::new(FX_ONE, FX_ONE),
        movement_speed: fx(200),
        rotation_speed: fx(4),
    };
    ship_move(&mut m, &ship);
    assert_eq!(m.angular_velocity, -fx(4));
    assert_eq!(m.acceleration, Vec2::new(-fx(200), 0));
    assert_eq!(m.position, Vec2::new(0, 0));
}

#[test]
fn empty_groups_report_nothing() {
    let none: Vec<PhysicsEntity> = vec![];
    let one = vec![circle_entity(1, 0, 0, fx(10))];
    assert_eq!(detect_between(&none, &one).len(), 0);
    assert_eq!(detect_between(&one, &none).len(), 0);
    assert_eq!(detect_between(&none, &none).len(), 0);
}
