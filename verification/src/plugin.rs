//! System assembly: the fixed-timestep accumulator and the collision pair
//! registry, both supplied once at startup, and the detection pass that runs
//! the registered group pairs.

use vstd::prelude::*;

use crate::collision::{
    detect_between, detect_between_spec, physics_entity_wf, CollisionEvent, PhysicsEntity,
};
use crate::fxmath::{FX_LIMIT, FX_ONE};
use crate::movement::dt_wf;

verus! {

/// The default fixed timestep: 64 simulation steps per second, in fixed
/// point.
pub const DEFAULT_FIXED_DT: i64 = 156;

/// The fixed-step schedule: how long one simulation step lasts and how much
/// unsimulated time has accumulated. Owned state, passed into the tick, so
/// the core runs without any ambient clock.
#[derive(Clone, Copy, PartialEq, Eq, Structural, Debug)]
pub struct FixedTimestep {
    fixed_dt: i64,
    accumulated: i64,
}

/// The step duration of a schedule.
pub closed spec fn fixed_dt_spec(t: FixedTimestep) -> i64 {
    t.fixed_dt
}

/// The accumulated unsimulated time of a schedule.
pub closed spec fn accumulated_spec(t: FixedTimestep) -> i64 {
    t.accumulated
}

/// A valid schedule: a positive step no longer than a second, and strictly
/// less than one step of time still unsimulated.
pub open spec fn timestep_wf(t: FixedTimestep) -> bool {
    dt_wf(fixed_dt_spec(t)) && 0 <= accumulated_spec(t) < fixed_dt_spec(t)
}

impl FixedTimestep {
    /// A schedule from its step duration. A zero or negative duration is a
    /// programming error and is excluded outright.
    pub fn new(fixed_dt: i64) -> (r: FixedTimestep)
        requires
            dt_wf(fixed_dt),
        ensures
            fixed_dt_spec(r) == fixed_dt,
            accumulated_spec(r) == 0,
            timestep_wf(r),
    {
        FixedTimestep { fixed_dt, accumulated: 0 }
    }

    /// The step duration.
    pub fn fixed_dt(&self) -> (r: i64)
        ensures
            r == fixed_dt_spec(*self),
    {
        self.fixed_dt
    }

    /// Accounts one render frame of duration `frame` and returns how many
    /// whole fixed steps are now due; what is left below one step stays
    /// accumulated.
    pub fn advance(&mut self, frame: i64) -> (steps: i64)
        requires
            timestep_wf(*old(self)),
            0 <= frame <= FX_LIMIT,
        ensures
            timestep_wf(*final(self)),
            fixed_dt_spec(*final(self)) == fixed_dt_spec(*old(self)),
            steps == (accumulated_spec(*old(self)) + frame) / (fixed_dt_spec(*old(self)) as int),
            accumulated_spec(*final(self)) == (accumulated_spec(*old(self)) + frame) % (
            fixed_dt_spec(*old(self)) as int),
            steps >= 0,
    {
        let total: i64 = self.accumulated + frame;
        let steps: i64 = total / self.fixed_dt;
        proof {
            vstd::arithmetic::div_mod::lemma_div_pos_is_pos(total as int, self.fixed_dt as int);
            vstd::arithmetic::div_mod::lemma_mod_bound(total as int, self.fixed_dt as int);
        }
        self.accumulated = total % self.fixed_dt;
        steps
    }

    /// How far into the next fixed step the current frame falls, as a
    /// fraction in `[0, FX_ONE)`: the lerp factor of the extrapolator.
    pub fn overstep_fraction(&self) -> (r: i64)
        requires
            timestep_wf(*self),
        ensures
            r == (accumulated_spec(*self) as int) * (FX_ONE as int) / (fixed_dt_spec(*self) as int),
            0 <= r < FX_ONE,
    {
        proof {
            assert(0 <= (self.accumulated as int) * (FX_ONE as int) <= 100_000_000 && (
            self.accumulated as int) * (FX_ONE as int) < (self.fixed_dt as int) * (FX_ONE as int)
                && (self.fixed_dt as int) * (FX_ONE as int) <= 100_000_000) by (nonlinear_arith)
                requires
                    0 <= self.accumulated < self.fixed_dt <= 10_000,
                    FX_ONE == 10_000i64,
            ;
            vstd::arithmetic::div_mod::lemma_div_pos_is_pos(
                (self.accumulated as int) * (FX_ONE as int),
                self.fixed_dt as int,
            );
            vstd::arithmetic::div_mod::lemma_multiply_divide_lt(
                (self.accumulated as int) * (FX_ONE as int),
                self.fixed_dt as int,
                FX_ONE as int,
            );
        }
        (self.accumulated * FX_ONE) / self.fixed_dt
    }
}

/// The entities of one tag group, in their incoming order: the first `i`
/// entries sifted by group.
pub open spec fn group_members_spec(s: Seq<PhysicsEntity>, g: u32, i: int) -> Seq<PhysicsEntity>
    decreases i,
{
    if i <= 0 {
        Seq::empty()
    } else {
        group_members_spec(s, g, i - 1) + if s[i - 1].group == g {
            seq![s[i - 1]]
        } else {
            Seq::empty()
        }
    }
}

/// The events of one full detection pass: for each registered ordered group
/// pair, in registration order, the pairwise scan of the two groups.
pub open spec fn collision_pass_spec(
    entities: Seq<PhysicsEntity>,
    pairs: Seq<(u32, u32)>,
    k: int,
) -> Seq<CollisionEvent>
    decreases k,
{
    if k <= 0 {
        Seq::empty()
    } else {
        let a = group_members_spec(entities, pairs[k - 1].0, entities.len() as int);
        let b = group_members_spec(entities, pairs[k - 1].1, entities.len() as int);
        collision_pass_spec(entities, pairs, k - 1) + detect_between_spec(a, b, a.len() as int)
    }
}

/// Collects the entities of one tag group, keeping their order.
fn group_members(entities: &Vec<PhysicsEntity>, g: u32) -> (members: Vec<PhysicsEntity>)
    requires
        forall|i: int| 0 <= i < entities@.len() ==> physics_entity_wf(#[trigger] entities@[i]),
    ensures
        members@ == group_members_spec(entities@, g, entities@.len() as int),
        forall|i: int| 0 <= i < members@.len() ==> physics_entity_wf(#[trigger] members@[i]),
{
    let mut members: Vec<PhysicsEntity> = Vec::new();
    let n: usize = entities.len();
    let mut i: usize = 0;
    while i < n
        invariant
            n == entities@.len(),
            i <= n,
            forall|p: int| 0 <= p < n ==> physics_entity_wf(#[trigger] entities@[p]),
            members@ == group_members_spec(entities@, g, i as int),
            forall|p: int| 0 <= p < members@.len() ==> physics_entity_wf(#[trigger] members@[p]),
        decreases n - i,
    {
        if entities[i].group == g {
            members.push(entities[i]);
        }
        i = i + 1;
    }
    members
}

/// One full detection pass over the registered group pairs: runs after the
/// integrator in the same fixed step and emits one event per reported pair.
pub fn physics_collision_system(
    entities: &Vec<PhysicsEntity>,
    pairs: &Vec<(u32, u32)>,
) -> (events: Vec<CollisionEvent>)
    requires
        forall|i: int| 0 <= i < entities@.len() ==> physics_entity_wf(#[trigger] entities@[i]),
    ensures
        events@ == collision_pass_spec(entities@, pairs@, pairs@.len() as int),
{
    let mut events: Vec<CollisionEvent> = Vec::new();
    let np: usize = pairs.len();
    let mut k: usize = 0;
    while k < np
        invariant
            np == pairs@.len(),
            k <= np,
            forall|i: int| 0 <= i < entities@.len() ==> physics_entity_wf(#[trigger] entities@[i]),
            events@ == collision_pass_spec(entities@, pairs@, k as int),
        decreases np - k,
    {
        let first: Vec<PhysicsEntity> = group_members(entities, pairs[k].0);
        let second: Vec<PhysicsEntity> = group_members(entities, pairs[k].1);
        let found: Vec<CollisionEvent> = detect_between(&first, &second);
        let nf: usize = found.len();
        let mut j: usize = 0;
        while j < nf
            invariant
                nf == found@.len(),
                j <= nf,
                events@ == collision_pass_spec(entities@, pairs@, k as int) + found@.take(j as int),
            decreases nf - j,
        {
            events.push(found[j]);
            proof {
                assert(found@.take(j + 1 as int) == found@.take(j as int).push(found@[j as int]));
            }
            j = j + 1;
        }
        proof {
            assert(found@.take(nf as int) == found@);
        }
        k = k + 1;
    }
    events
}

/// The collision pair registry: which ordered tag-group pairs the detector
/// checks, declared once at assembly time.
pub struct AsteroidPhysicsPlugin {
    collisions_to_check: Vec<(u32, u32)>,
}

/// The registered group pairs of a physics plugin.
pub closed spec fn registered_pairs_spec(p: AsteroidPhysicsPlugin) -> Seq<(u32, u32)> {
    p.collisions_to_check@
}

impl AsteroidPhysicsPlugin {
    /// Declares one more ordered group pair to check each fixed step.
    pub fn with_collisions_between(self, first: u32, second: u32) -> (r: AsteroidPhysicsPlugin)
        ensures
            registered_pairs_spec(r) == registered_pairs_spec(self).push((first, second)),
    {
        let mut collisions_to_check = self.collisions_to_check;
        collisions_to_check.push((first, second));
        AsteroidPhysicsPlugin { collisions_to_check }
    }

    /// One full detection pass with this registry.
    pub fn detect(&self, entities: &Vec<PhysicsEntity>) -> (events: Vec<CollisionEvent>)
        requires
            forall|i: int| 0 <= i < entities@.len() ==> physics_entity_wf(#[trigger] entities@[i]),
        ensures
            events@ == collision_pass_spec(
                entities@,
                registered_pairs_spec(*self),
                registered_pairs_spec(*self).len() as int,
            ),
    {
        physics_collision_system(entities, &self.collisions_to_check)
    }
}

impl Default for AsteroidPhysicsPlugin {
    /// A registry with nothing to check: callers must opt in.
    fn default() -> (r: AsteroidPhysicsPlugin)
        ensures
            registered_pairs_spec(r) == Seq::<(u32, u32)>::empty(),
    {
        let collisions_to_check: Vec<(u32, u32)> = Vec::new();
        proof {
            assert(Seq::<(u32, u32)>::empty() =~= collisions_to_check@);
        }
        AsteroidPhysicsPlugin { collisions_to_check }
    }
}

/// The whole simulation assembly: builds the physics registry and the fixed
/// schedule that the game loop drives.
pub struct AsteroidPlugin;

impl AsteroidPlugin {
    /// Assembles the physics core with its default fixed rate and an empty
    /// pair registry.
    pub fn build(&self) -> (r: (AsteroidPhysicsPlugin, FixedTimestep))
        ensures
            registered_pairs_spec(r.0) == Seq::<(u32, u32)>::empty(),
            fixed_dt_spec(r.1) == DEFAULT_FIXED_DT,
            accumulated_spec(r.1) == 0,
            timestep_wf(r.1),
    {
        (AsteroidPhysicsPlugin::default(), FixedTimestep::new(DEFAULT_FIXED_DT))
    }
}

} // verus!
