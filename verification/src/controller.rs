//! The keyboard controller: turns held actions into the entity's
//! acceleration and angular velocity, which only the integrator then reads.

use vstd::prelude::*;

use crate::actions::AsteroidAction;
use crate::fxmath::{fx_mul, fx_mul_spec, lemma_fx_mul_bound, FX_ONE, SPEED_LIMIT};
use crate::movement::{direction_spec, movement_wf, Movement};
use crate::vec2::Vec2;

verus! {

/// How fast an entity accelerates and turns under full input.
#[derive(Clone, Copy, PartialEq, Eq, Structural, Debug)]
pub struct Speed {
    pub movement_speed: i64,
    pub rotation_speed: i64,
}

/// Valid speeds: nonnegative rates within the rate bound.
pub open spec fn speed_wf(s: Speed) -> bool {
    0 <= s.movement_speed as int <= SPEED_LIMIT as int && 0 <= s.rotation_speed as int
        <= SPEED_LIMIT as int
}

impl Default for Speed {
    /// An entity that full input neither accelerates nor turns.
    fn default() -> (r: Speed)
        ensures
            r == (Speed { movement_speed: 0i64, rotation_speed: 0i64 }),
            speed_wf(r),
    {
        Speed { movement_speed: 0, rotation_speed: 0 }
    }
}

/// The left/right share of the held actions: `1` for a held turn right,
/// `-1` for a held turn left, their sum when both are held.
pub open spec fn input_dir_x_spec(pressed: Seq<AsteroidAction>) -> int {
    (if pressed.contains(AsteroidAction::TurnRight) {
        1int
    } else {
        0int
    }) - (if pressed.contains(AsteroidAction::TurnLeft) {
        1int
    } else {
        0int
    })
}

/// The forward/backward share of the held actions.
pub open spec fn input_dir_y_spec(pressed: Seq<AsteroidAction>) -> int {
    (if pressed.contains(AsteroidAction::Forward) {
        1int
    } else {
        0int
    }) - (if pressed.contains(AsteroidAction::Backward) {
        1int
    } else {
        0int
    })
}

/// Whether an action is among the held ones.
pub fn input_action(pressed: &Vec<AsteroidAction>, action: AsteroidAction) -> (r: bool)
    ensures
        r == pressed@.contains(action),
{
    let n: usize = pressed.len();
    let mut i: usize = 0;
    while i < n
        invariant
            n == pressed@.len(),
            i <= n,
            forall|k: int| 0 <= k < i ==> pressed@[k] != action,
        decreases n - i,
    {
        if pressed[i] == action {
            return true;
        }
        i = i + 1;
    }
    false
}

/// Applies the held actions to one entity: the turn input sets the angular
/// velocity against the turn direction, the thrust input accelerates along
/// the direction the entity faces. Nothing else of the movement changes; the
/// integrator alone moves the entity.
pub fn controller_move(movement: &mut Movement, speed: &Speed, pressed: &Vec<AsteroidAction>)
    requires
        movement_wf(*old(movement)),
        speed_wf(*speed),
    ensures
        movement_wf(*final(movement)),
        final(movement).angular_velocity == -input_dir_x_spec(pressed@) * (
        speed.rotation_speed as int),
        final(movement).acceleration.x == input_dir_y_spec(pressed@) * fx_mul_spec(
            direction_spec(*old(movement)).x as int,
            speed.movement_speed as int,
        ),
        final(movement).acceleration.y == input_dir_y_spec(pressed@) * fx_mul_spec(
            direction_spec(*old(movement)).y as int,
            speed.movement_speed as int,
        ),
        final(movement).position == old(movement).position,
        final(movement).velocity == old(movement).velocity,
        final(movement).rotation == old(movement).rotation,
        final(movement).friction == old(movement).friction,
        final(movement).max_speed == old(movement).max_speed,
{
    let mut ix: i64 = 0;
    let mut iy: i64 = 0;
    if input_action(pressed, AsteroidAction::Forward) {
        iy = iy + 1;
    }
    if input_action(pressed, AsteroidAction::Backward) {
        iy = iy - 1;
    }
    if input_action(pressed, AsteroidAction::TurnLeft) {
        ix = ix - 1;
    }
    if input_action(pressed, AsteroidAction::TurnRight) {
        ix = ix + 1;
    }
    proof {
        assert(ix == input_dir_x_spec(pressed@));
        assert(iy == input_dir_y_spec(pressed@));
        assert(-(SPEED_LIMIT as int) <= -ix * (speed.rotation_speed as int) <= SPEED_LIMIT as int)
            by (nonlinear_arith)
            requires
                -1 <= ix as int <= 1,
                0 <= speed.rotation_speed as int <= SPEED_LIMIT as int,
        ;
    }
    movement.angular_velocity = -ix * speed.rotation_speed;
    let dir: Vec2 = movement.get_direction();
    proof {
        lemma_fx_mul_bound(dir.x as int, speed.movement_speed as int, FX_ONE as int, SPEED_LIMIT as int);
        lemma_fx_mul_bound(dir.y as int, speed.movement_speed as int, FX_ONE as int, SPEED_LIMIT as int);
    }
    let ax: i64 = fx_mul(dir.x, speed.movement_speed);
    let ay: i64 = fx_mul(dir.y, speed.movement_speed);
    proof {
        assert(-(SPEED_LIMIT as int) <= iy * (ax as int) <= SPEED_LIMIT as int
            && -(SPEED_LIMIT as int) <= iy * (ay as int) <= SPEED_LIMIT as int)
            by (nonlinear_arith)
            requires
                -1 <= iy as int <= 1,
                -(SPEED_LIMIT as int) <= ax as int <= SPEED_LIMIT as int,
                -(SPEED_LIMIT as int) <= ay as int <= SPEED_LIMIT as int,
        ;
    }
    movement.acceleration = Vec2 { x: iy * ax, y: iy * ay };
}

} // verus!
