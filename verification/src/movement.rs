//! Per-entity kinematic state and the fixed-timestep integrator, with the
//! render-time transform extrapolation that decouples the simulation rate
//! from the display rate.

use vstd::prelude::*;

use crate::fxmath::{fx_abs, fx_mul, fx_mul_spec, lemma_fx_mul_bound, FX_LIMIT, FX_ONE, SPEED_LIMIT};
use crate::rot2::{fx_cos_spec, fx_sin_spec, fx_cos, fx_sin};
use crate::vec2::{clamp_length_spec, len_sq_spec, vec2_add_spec, vec2_spec, Vec2};

verus! {

/// Kinematic state of one simulated entity. Positions and rotations are
/// fixed-point; `friction` is a dimensionless damping coefficient within one
/// unit; `max_speed` caps the velocity after every integration step.
#[derive(Clone, Copy, PartialEq, Eq, Structural, Debug)]
pub struct Movement {
    pub position: Vec2,
    pub velocity: Vec2,
    pub acceleration: Vec2,
    pub rotation: i64,
    pub angular_velocity: i64,
    pub friction: i64,
    pub max_speed: i64,
}

/// A well-formed movement: every part within its bound, the damping
/// coefficient within one unit, the speed cap nonnegative.
pub open spec fn movement_wf(m: Movement) -> bool {
    &&& fx_abs(m.position.x as int) <= FX_LIMIT as int
    &&& fx_abs(m.position.y as int) <= FX_LIMIT as int
    &&& fx_abs(m.velocity.x as int) <= SPEED_LIMIT as int
    &&& fx_abs(m.velocity.y as int) <= SPEED_LIMIT as int
    &&& fx_abs(m.acceleration.x as int) <= SPEED_LIMIT as int
    &&& fx_abs(m.acceleration.y as int) <= SPEED_LIMIT as int
    &&& fx_abs(m.rotation as int) <= FX_LIMIT as int
    &&& fx_abs(m.angular_velocity as int) <= SPEED_LIMIT as int
    &&& 0 <= m.friction as int <= FX_ONE as int
    &&& 0 <= m.max_speed as int <= SPEED_LIMIT as int
}

/// A valid fixed timestep: positive and at most one second. A zero or
/// negative timestep is a programming error and is excluded outright.
pub open spec fn dt_wf(dt: i64) -> bool {
    0 < dt <= FX_ONE
}

/// Headroom for one integration step: the position and the accumulated
/// rotation stay within the storage bound after one step's change.
pub open spec fn step_headroom(m: Movement) -> bool {
    &&& fx_abs(m.position.x as int) <= FX_LIMIT as int - SPEED_LIMIT as int
    &&& fx_abs(m.position.y as int) <= FX_LIMIT as int - SPEED_LIMIT as int
    &&& fx_abs(m.rotation as int) <= FX_LIMIT as int - SPEED_LIMIT as int
}

/// The velocity after one step, before and after the speed clamp: the
/// acceleration is applied over `dt`, linear damping removes a `friction`
/// share of the old velocity, and the result is clamped to `max_speed`.
pub open spec fn step_velocity_spec(m: Movement, dt: i64) -> Vec2 {
    clamp_length_spec(
        vec2_spec(
            m.velocity.x + fx_mul_spec(m.acceleration.x as int, dt as int) - fx_mul_spec(
                m.friction as int,
                m.velocity.x as int,
            ),
            m.velocity.y + fx_mul_spec(m.acceleration.y as int, dt as int) - fx_mul_spec(
                m.friction as int,
                m.velocity.y as int,
            ),
        ),
        m.max_speed,
    )
}

/// One integration step: the new velocity as `step_velocity_spec`, the
/// position advanced by the new velocity over `dt`, the rotation advanced by
/// the angular velocity over `dt`; inputs are left as they are.
pub open spec fn step_spec(m: Movement, dt: i64) -> Movement {
    let v = step_velocity_spec(m, dt);
    Movement {
        position: vec2_add_spec(
            m.position,
            vec2_spec(
                fx_mul_spec(v.x as int, dt as int),
                fx_mul_spec(v.y as int, dt as int),
            ),
        ),
        velocity: v,
        acceleration: m.acceleration,
        rotation: (m.rotation + fx_mul_spec(m.angular_velocity as int, dt as int)) as i64,
        angular_velocity: m.angular_velocity,
        friction: m.friction,
        max_speed: m.max_speed,
    }
}

/// The state after `n` integration steps of duration `dt`.
pub open spec fn step_n_spec(m: Movement, dt: i64, n: nat) -> Movement
    decreases n,
{
    if n == 0 {
        m
    } else {
        step_spec(step_n_spec(m, dt, (n - 1) as nat), dt)
    }
}

/// The unit direction the entity faces: the positive y axis turned by the
/// entity's rotation.
pub open spec fn direction_spec(m: Movement) -> Vec2 {
    vec2_spec(-fx_sin_spec(m.rotation as int), fx_cos_spec(m.rotation as int))
}

impl Movement {
    /// The direction the entity faces.
    pub fn get_direction(&self) -> (r: Vec2)
        requires
            -0x7fff_ffff_ffff_ffff <= self.rotation,
        ensures
            r == direction_spec(*self),
            fx_abs(r.x as int) <= FX_ONE as int,
            fx_abs(r.y as int) <= FX_ONE as int,
    {
        Vec2 { x: -fx_sin(self.rotation), y: fx_cos(self.rotation) }
    }

    /// One fixed integration step, in place:
    /// the velocity gains `acceleration * dt`, loses `friction * velocity`,
    /// and is clamped to `max_speed`; the position gains `velocity * dt`;
    /// the rotation gains `angular_velocity * dt`. After the step the
    /// squared speed never exceeds `max_speed * max_speed`.
    pub fn step(&mut self, dt: i64)
        requires
            movement_wf(*old(self)),
            step_headroom(*old(self)),
            dt_wf(dt),
        ensures
            *final(self) == step_spec(*old(self), dt),
            movement_wf(*final(self)),
            len_sq_spec(final(self).velocity) <= (old(self).max_speed as int) * (
            old(self).max_speed as int),
    {
        proof {
            lemma_fx_mul_bound(
                self.acceleration.x as int,
                dt as int,
                SPEED_LIMIT as int,
                FX_ONE as int,
            );
            lemma_fx_mul_bound(
                self.acceleration.y as int,
                dt as int,
                SPEED_LIMIT as int,
                FX_ONE as int,
            );
            lemma_fx_mul_bound(
                self.friction as int,
                self.velocity.x as int,
                FX_ONE as int,
                SPEED_LIMIT as int,
            );
            lemma_fx_mul_bound(
                self.friction as int,
                self.velocity.y as int,
                FX_ONE as int,
                SPEED_LIMIT as int,
            );
        }
        let vx: i64 = self.velocity.x + fx_mul(self.acceleration.x, dt) - fx_mul(
            self.friction,
            self.velocity.x,
        );
        let vy: i64 = self.velocity.y + fx_mul(self.acceleration.y, dt) - fx_mul(
            self.friction,
            self.velocity.y,
        );
        let v: Vec2 = (Vec2 { x: vx, y: vy }).clamp_length_max(self.max_speed);
        proof {
            lemma_fx_mul_bound(v.x as int, dt as int, SPEED_LIMIT as int, FX_ONE as int);
            lemma_fx_mul_bound(v.y as int, dt as int, SPEED_LIMIT as int, FX_ONE as int);
            lemma_fx_mul_bound(
                self.angular_velocity as int,
                dt as int,
                SPEED_LIMIT as int,
                FX_ONE as int,
            );
        }
        self.velocity = v;
        self.position = Vec2 {
            x: self.position.x + fx_mul(v.x, dt),
            y: self.position.y + fx_mul(v.y, dt),
        };
        self.rotation = self.rotation + fx_mul(self.angular_velocity, dt);
    }
}

impl Default for Movement {
    /// An entity at rest at the origin, undamped, with the speed cap at its
    /// largest representable value.
    fn default() -> (r: Movement)
        ensures
            r == (Movement {
                position: Vec2 { x: 0i64, y: 0i64 },
                velocity: Vec2 { x: 0i64, y: 0i64 },
                acceleration: Vec2 { x: 0i64, y: 0i64 },
                rotation: 0i64,
                angular_velocity: 0i64,
                friction: 0i64,
                max_speed: SPEED_LIMIT,
            }),
            movement_wf(r),
    {
        Movement {
            position: Vec2 { x: 0, y: 0 },
            velocity: Vec2 { x: 0, y: 0 },
            acceleration: Vec2 { x: 0, y: 0 },
            rotation: 0,
            angular_velocity: 0,
            friction: 0,
            max_speed: SPEED_LIMIT,
        }
    }
}

/// The integrator is a function of the prior state and the timestep alone:
/// entities with equal state step to equal state, however many entities are
/// stepped and in whatever order, for any number of steps.
pub proof fn lemma_integrator_deterministic(a: Movement, b: Movement, dt: i64, n: nat)
    requires
        a == b,
    ensures
        step_n_spec(a, dt, n) == step_n_spec(b, dt, n),
{
}

/// The fixed-rate integrator pass: every movement takes one step.
pub fn physics_fixed_movement_system(movements: &mut Vec<Movement>, dt: i64)
    requires
        dt_wf(dt),
        forall|i: int|
            0 <= i < old(movements)@.len() ==> movement_wf(#[trigger] old(movements)@[i])
                && step_headroom(old(movements)@[i]),
    ensures
        final(movements)@.len() == old(movements)@.len(),
        forall|i: int|
            0 <= i < old(movements)@.len() ==> #[trigger] final(movements)@[i] == step_spec(
                old(movements)@[i],
                dt,
            ),
{
    let n: usize = movements.len();
    let mut i: usize = 0;
    while i < n
        invariant
            n == old(movements)@.len(),
            movements@.len() == n,
            i <= n,
            dt_wf(dt),
            forall|j: int|
                0 <= j < n ==> movement_wf(#[trigger] old(movements)@[j]) && step_headroom(
                    old(movements)@[j],
                ),
            forall|j: int| i <= j < n ==> #[trigger] movements@[j] == old(movements)@[j],
            forall|j: int|
                0 <= j < i ==> #[trigger] movements@[j] == step_spec(old(movements)@[j], dt),
        decreases n - i,
    {
        let mut m: Movement = movements[i];
        m.step(dt);
        movements[i] = m;
        i = i + 1;
    }
}

/// A render-only pose: what the extrapolator writes each display frame.
#[derive(Clone, Copy, PartialEq, Eq, Structural, Debug)]
pub struct RenderTransform {
    pub translation: Vec2,
    pub rotation: i64,
}

/// The extrapolated render pose: the position and rotation advanced by the
/// overstep share `f` of one further fixed step, without touching the
/// simulated state.
pub open spec fn extrapolate_spec(m: Movement, fixed_dt: i64, overstep: i64) -> RenderTransform {
    RenderTransform {
        translation: vec2_add_spec(
            m.position,
            vec2_spec(
                fx_mul_spec(overstep as int, fx_mul_spec(m.velocity.x as int, fixed_dt as int)),
                fx_mul_spec(overstep as int, fx_mul_spec(m.velocity.y as int, fixed_dt as int)),
            ),
        ),
        rotation: (m.rotation + fx_mul_spec(
            overstep as int,
            fx_mul_spec(m.angular_velocity as int, fixed_dt as int),
        )) as i64,
    }
}

/// The per-frame extrapolation pass for one entity: interpolates between the
/// last simulated pose and the pose one fixed step ahead, by the overstep
/// fraction `f` in `[0, FX_ONE]`. Writes only the render pose, never the
/// simulated state, so the simulation cannot depend on the frame rate.
pub fn extrapolate_transform(m: &Movement, fixed_dt: i64, overstep: i64) -> (r: RenderTransform)
    requires
        movement_wf(*m),
        dt_wf(fixed_dt),
        0 <= overstep <= FX_ONE,
    ensures
        r == extrapolate_spec(*m, fixed_dt, overstep),
{
    proof {
        lemma_fx_mul_bound(m.velocity.x as int, fixed_dt as int, SPEED_LIMIT as int, FX_ONE as int);
        lemma_fx_mul_bound(m.velocity.y as int, fixed_dt as int, SPEED_LIMIT as int, FX_ONE as int);
        lemma_fx_mul_bound(
            m.angular_velocity as int,
            fixed_dt as int,
            SPEED_LIMIT as int,
            FX_ONE as int,
        );
    }
    let sx: i64 = fx_mul(m.velocity.x, fixed_dt);
    let sy: i64 = fx_mul(m.velocity.y, fixed_dt);
    let sr: i64 = fx_mul(m.angular_velocity, fixed_dt);
    proof {
        lemma_fx_mul_bound(overstep as int, sx as int, FX_ONE as int, SPEED_LIMIT as int);
        lemma_fx_mul_bound(overstep as int, sy as int, FX_ONE as int, SPEED_LIMIT as int);
        lemma_fx_mul_bound(overstep as int, sr as int, FX_ONE as int, SPEED_LIMIT as int);
    }
    RenderTransform {
        translation: Vec2 {
            x: m.position.x + fx_mul(overstep, sx),
            y: m.position.y + fx_mul(overstep, sy),
        },
        rotation: m.rotation + fx_mul(overstep, sr),
    }
}

/// With no overstep the extrapolated pose is exactly the last simulated one.
pub proof fn lemma_extrapolate_at_zero(m: Movement, fixed_dt: i64)
    requires
        movement_wf(m),
    ensures
        extrapolate_spec(m, fixed_dt, 0) == (RenderTransform {
            translation: m.position,
            rotation: m.rotation,
        }),
{
    assert(fx_mul_spec(0, fx_mul_spec(m.velocity.x as int, fixed_dt as int)) == 0);
    assert(fx_mul_spec(0, fx_mul_spec(m.velocity.y as int, fixed_dt as int)) == 0);
    assert(fx_mul_spec(0, fx_mul_spec(m.angular_velocity as int, fixed_dt as int)) == 0);
}

/// With a full overstep the extrapolated pose is exactly the pose one fixed
/// step ahead: `position + velocity * fixed_dt` and
/// `rotation + angular_velocity * fixed_dt`.
pub proof fn lemma_extrapolate_at_one(m: Movement, fixed_dt: i64)
    requires
        movement_wf(m),
        dt_wf(fixed_dt),
    ensures
        extrapolate_spec(m, fixed_dt, FX_ONE) == (RenderTransform {
            translation: vec2_add_spec(
                m.position,
                vec2_spec(
                    fx_mul_spec(m.velocity.x as int, fixed_dt as int),
                    fx_mul_spec(m.velocity.y as int, fixed_dt as int),
                ),
            ),
            rotation: (m.rotation + fx_mul_spec(
                m.angular_velocity as int,
                fixed_dt as int,
            )) as i64,
        }),
{
    crate::fxmath::lemma_fx_mul_whole(1, fx_mul_spec(m.velocity.x as int, fixed_dt as int));
    crate::fxmath::lemma_fx_mul_whole(1, fx_mul_spec(m.velocity.y as int, fixed_dt as int));
    crate::fxmath::lemma_fx_mul_whole(1, fx_mul_spec(m.angular_velocity as int, fixed_dt as int));
}

/// The per-frame extrapolation pass: one render pose per movement, in
/// order, leaving every movement untouched.
pub fn physics_transform_extrapolate_system(
    movements: &Vec<Movement>,
    fixed_dt: i64,
    overstep: i64,
) -> (poses: Vec<RenderTransform>)
    requires
        dt_wf(fixed_dt),
        0 <= overstep <= FX_ONE,
        forall|i: int| 0 <= i < movements@.len() ==> movement_wf(#[trigger] movements@[i]),
    ensures
        poses@.len() == movements@.len(),
        forall|i: int|
            0 <= i < movements@.len() ==> #[trigger] poses@[i] == extrapolate_spec(
                movements@[i],
                fixed_dt,
                overstep,
            ),
{
    let mut poses: Vec<RenderTransform> = Vec::new();
    let n: usize = movements.len();
    let mut i: usize = 0;
    while i < n
        invariant
            n == movements@.len(),
            i <= n,
            dt_wf(fixed_dt),
            0 <= overstep <= FX_ONE,
            forall|j: int| 0 <= j < n ==> movement_wf(#[trigger] movements@[j]),
            poses@.len() == i,
            forall|j: int|
                0 <= j < i ==> #[trigger] poses@[j] == extrapolate_spec(
                    movements@[j],
                    fixed_dt,
                    overstep,
                ),
        decreases n - i,
    {
        let pose: RenderTransform = extrapolate_transform(&movements[i], fixed_dt, overstep);
        poses.push(pose);
        i = i + 1;
    }
    poses
}

/// For any overstep fraction within one step, the extrapolated pose lies
/// componentwise between the last simulated pose and the pose one fixed step
/// ahead: as the fraction approaches one, the render pose approaches
/// `position + velocity * fixed_dt` without ever passing it.
pub proof fn lemma_extrapolate_within_step(m: Movement, fixed_dt: i64, overstep: i64)
    requires
        movement_wf(m),
        dt_wf(fixed_dt),
        0 <= overstep <= FX_ONE,
    ensures
        ({
            let r = extrapolate_spec(m, fixed_dt, overstep);
            let dx = fx_mul_spec(m.velocity.x as int, fixed_dt as int);
            let dy = fx_mul_spec(m.velocity.y as int, fixed_dt as int);
            let dr = fx_mul_spec(m.angular_velocity as int, fixed_dt as int);
            &&& if dx >= 0 {
                m.position.x <= r.translation.x <= m.position.x + dx
            } else {
                m.position.x + dx <= r.translation.x <= m.position.x
            }
            &&& if dy >= 0 {
                m.position.y <= r.translation.y <= m.position.y + dy
            } else {
                m.position.y + dy <= r.translation.y <= m.position.y
            }
            &&& if dr >= 0 {
                m.rotation <= r.rotation <= m.rotation + dr
            } else {
                m.rotation + dr <= r.rotation <= m.rotation
            }
        }),
{
    let dx = fx_mul_spec(m.velocity.x as int, fixed_dt as int);
    let dy = fx_mul_spec(m.velocity.y as int, fixed_dt as int);
    let dr = fx_mul_spec(m.angular_velocity as int, fixed_dt as int);
    lemma_fx_mul_bound(m.velocity.x as int, fixed_dt as int, SPEED_LIMIT as int, FX_ONE as int);
    lemma_fx_mul_bound(m.velocity.y as int, fixed_dt as int, SPEED_LIMIT as int, FX_ONE as int);
    lemma_fx_mul_bound(
        m.angular_velocity as int,
        fixed_dt as int,
        SPEED_LIMIT as int,
        FX_ONE as int,
    );
    crate::fxmath::lemma_fx_mul_fraction(overstep as int, dx);
    crate::fxmath::lemma_fx_mul_fraction(overstep as int, dy);
    crate::fxmath::lemma_fx_mul_fraction(overstep as int, dr);
}

} // verus!
