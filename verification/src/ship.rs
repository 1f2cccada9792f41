//! Ship steering: the ship's control actions, the per-ship steering state,
//! and the mapping from both onto the entity's movement inputs.

use vstd::prelude::*;

use crate::actions::ActionLike;
use crate::fxmath::{fx_abs, fx_mul, fx_mul_spec, lemma_fx_mul_bound, FX_ONE, SPEED_LIMIT};
use crate::movement::{direction_spec, movement_wf, Movement};
use crate::vec2::Vec2;

verus! {

/// The actions steering a ship.
#[derive(PartialEq, Eq, Structural, Hash, Clone, Copy, Debug, Default)]
pub enum ShipAction {
    #[default]
    TurnLeft,
    TurnRight,
    Forward,
    Backward,
    Shoot,
}

impl ActionLike for ShipAction {

}

/// Per-ship steering state: the input direction the control systems wrote
/// this frame, and how fast the ship accelerates and turns.
#[derive(Clone, Copy, PartialEq, Eq, Structural, Debug)]
pub struct ShipMovement {
    pub direction: Vec2,
    pub movement_speed: i64,
    pub rotation_speed: i64,
}

/// A valid steering state: the input direction within one unit per axis,
/// nonnegative rates within the rate bound.
pub open spec fn ship_movement_wf(s: ShipMovement) -> bool {
    &&& fx_abs(s.direction.x as int) <= FX_ONE as int
    &&& fx_abs(s.direction.y as int) <= FX_ONE as int
    &&& 0 <= s.movement_speed as int <= SPEED_LIMIT as int
    &&& 0 <= s.rotation_speed as int <= SPEED_LIMIT as int
}

impl Default for ShipMovement {
    /// A ship with no input and no steering rates.
    fn default() -> (r: ShipMovement)
        ensures
            r == (ShipMovement {
                direction: Vec2 { x: 0i64, y: 0i64 },
                movement_speed: 0i64,
                rotation_speed: 0i64,
            }),
            ship_movement_wf(r),
    {
        ShipMovement { direction: Vec2 { x: 0, y: 0 }, movement_speed: 0, rotation_speed: 0 }
    }
}

/// Whether an action is among the held ones.
pub fn ship_input_action(pressed: &Vec<ShipAction>, action: ShipAction) -> (r: bool)
    ensures
        r == pressed@.contains(action),
{
    let n: usize = pressed.len();
    let mut i: usize = 0;
    while i < n
        invariant
            n == pressed@.len(),
            i <= n,
            forall|k: int| 0 <= k < i ==> pressed@[k] != action,
        decreases n - i,
    {
        if pressed[i] == action {
            return true;
        }
        i = i + 1;
    }
    false
}

/// The unit input direction the held actions ask for, one fixed-point unit
/// per axis: right and forward positive.
pub open spec fn ship_input_dir_spec(pressed: Seq<ShipAction>) -> Vec2 {
    crate::vec2::vec2_spec(
        (if pressed.contains(ShipAction::TurnRight) {
            FX_ONE as int
        } else {
            0int
        }) - (if pressed.contains(ShipAction::TurnLeft) {
            FX_ONE as int
        } else {
            0int
        }),
        (if pressed.contains(ShipAction::Forward) {
            FX_ONE as int
        } else {
            0int
        }) - (if pressed.contains(ShipAction::Backward) {
            FX_ONE as int
        } else {
            0int
        }),
    )
}

/// Reads the held actions into an input direction, as the player movement
/// system writes it into `ShipMovement::direction` each frame.
pub fn player_move_input(pressed: &Vec<ShipAction>) -> (r: Vec2)
    ensures
        r == ship_input_dir_spec(pressed@),
        fx_abs(r.x as int) <= FX_ONE as int,
        fx_abs(r.y as int) <= FX_ONE as int,
{
    let mut x: i64 = 0;
    let mut y: i64 = 0;
    if ship_input_action(pressed, ShipAction::Forward) {
        y = y + FX_ONE;
    }
    if ship_input_action(pressed, ShipAction::Backward) {
        y = y - FX_ONE;
    }
    if ship_input_action(pressed, ShipAction::TurnLeft) {
        x = x - FX_ONE;
    }
    if ship_input_action(pressed, ShipAction::TurnRight) {
        x = x + FX_ONE;
    }
    Vec2 { x, y }
}

/// Applies one ship's steering to its movement: the turn share of the input
/// sets the angular velocity against the turn direction, the thrust share
/// accelerates along the direction the ship faces. Nothing else changes; the
/// integrator alone moves the ship.
pub fn ship_move(movement: &mut Movement, ship: &ShipMovement)
    requires
        movement_wf(*old(movement)),
        ship_movement_wf(*ship),
    ensures
        movement_wf(*final(movement)),
        final(movement).angular_velocity == -fx_mul_spec(
            ship.direction.x as int,
            ship.rotation_speed as int,
        ),
        final(movement).acceleration.x == fx_mul_spec(
            fx_mul_spec(direction_spec(*old(movement)).x as int, ship.movement_speed as int),
            ship.direction.y as int,
        ),
        final(movement).acceleration.y == fx_mul_spec(
            fx_mul_spec(direction_spec(*old(movement)).y as int, ship.movement_speed as int),
            ship.direction.y as int,
        ),
        final(movement).position == old(movement).position,
        final(movement).velocity == old(movement).velocity,
        final(movement).rotation == old(movement).rotation,
        final(movement).friction == old(movement).friction,
        final(movement).max_speed == old(movement).max_speed,
{
    proof {
        lemma_fx_mul_bound(
            ship.direction.x as int,
            ship.rotation_speed as int,
            FX_ONE as int,
            SPEED_LIMIT as int,
        );
    }
    movement.angular_velocity = -fx_mul(ship.direction.x, ship.rotation_speed);
    let dir: Vec2 = movement.get_direction();
    proof {
        lemma_fx_mul_bound(dir.x as int, ship.movement_speed as int, FX_ONE as int, SPEED_LIMIT as int);
        lemma_fx_mul_bound(dir.y as int, ship.movement_speed as int, FX_ONE as int, SPEED_LIMIT as int);
    }
    let ax: i64 = fx_mul(dir.x, ship.movement_speed);
    let ay: i64 = fx_mul(dir.y, ship.movement_speed);
    proof {
        lemma_fx_mul_bound(ax as int, ship.direction.y as int, SPEED_LIMIT as int, FX_ONE as int);
        lemma_fx_mul_bound(ay as int, ship.direction.y as int, SPEED_LIMIT as int, FX_ONE as int);
    }
    movement.acceleration = Vec2 {
        x: fx_mul(ax, ship.direction.y),
        y: fx_mul(ay, ship.direction.y),
    };
}

} // verus!
