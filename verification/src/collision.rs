//! Colliders, shapes, collision layers and the pairwise collision detector.

use vstd::prelude::*;

use crate::bounding::{
    aabb_aabb_intersects_spec, aabb_circle_intersects_spec, aabb_geo, aabb_transformed_spec,
    aabb_wf, circle_circle_intersects_spec, circle_geo, circle_transformed_spec, circle_wf,
    Aabb2d, BoundingCircle,
};
use crate::fxmath::{fx_mul_spec, FX_LIMIT, FX_ONE};
use crate::movement::{movement_wf, Movement};
use crate::obb::{
    obb_circle_intersects_spec, obb_from_aabb_spec, obb_geo, obb_obb_intersects_spec,
    obb_transformed_spec, obb_wf, Obb2d,
};
use crate::rot2::{fx_cos_spec, fx_sin_spec, Rot2};
use crate::vec2::Vec2;

verus! {

/// The shape of a collider, stored in local space around the entity origin.
#[derive(Clone, Copy, PartialEq, Eq, Structural, Debug)]
pub enum Shape {
    Aabb(Aabb2d),
    Obb(Obb2d),
    Circle(BoundingCircle),
}

/// A well-formed stored shape.
pub open spec fn shape_wf(s: Shape) -> bool {
    match s {
        Shape::Aabb(a) => aabb_wf(a),
        Shape::Obb(o) => obb_wf(o),
        Shape::Circle(c) => circle_wf(c),
    }
}

/// A shape the intersection tests accept: what one world-space transform of
/// a well-formed shape can reach.
pub open spec fn shape_geo(s: Shape) -> bool {
    match s {
        Shape::Aabb(a) => aabb_geo(a),
        Shape::Obb(o) => obb_geo(o),
        Shape::Circle(c) => circle_geo(c),
    }
}

/// Whether two shapes overlap: the nine ordered variant pairs, each
/// delegated to its canonical exact test.
pub open spec fn shape_intersects_spec(a: Shape, b: Shape) -> bool {
    match (a, b) {
        (Shape::Aabb(a1), Shape::Aabb(a2)) => aabb_aabb_intersects_spec(a1, a2),
        (Shape::Aabb(a1), Shape::Obb(o2)) => obb_obb_intersects_spec(o2, obb_from_aabb_spec(a1)),
        (Shape::Aabb(a1), Shape::Circle(c2)) => aabb_circle_intersects_spec(a1, c2),
        (Shape::Obb(o1), Shape::Aabb(a2)) => obb_obb_intersects_spec(o1, obb_from_aabb_spec(a2)),
        (Shape::Obb(o1), Shape::Obb(o2)) => obb_obb_intersects_spec(o1, o2),
        (Shape::Obb(o1), Shape::Circle(c2)) => obb_circle_intersects_spec(o1, c2),
        (Shape::Circle(c1), Shape::Aabb(a2)) => aabb_circle_intersects_spec(a2, c1),
        (Shape::Circle(c1), Shape::Obb(o2)) => obb_circle_intersects_spec(o2, c1),
        (Shape::Circle(c1), Shape::Circle(c2)) => circle_circle_intersects_spec(c1, c2),
    }
}

/// The rotation an entity's movement induces on its shape.
pub open spec fn movement_rot_spec(m: Movement) -> Rot2 {
    Rot2 { cos: fx_cos_spec(m.rotation as int) as i64, sin: fx_sin_spec(m.rotation as int) as i64 }
}

/// The shape carried into world space by an entity's movement.
pub open spec fn shape_transformed_spec(s: Shape, m: Movement) -> Shape {
    let rot = movement_rot_spec(m);
    match s {
        Shape::Aabb(a) => Shape::Aabb(aabb_transformed_spec(a, m.position, rot)),
        Shape::Obb(o) => Shape::Obb(obb_transformed_spec(o, m.position, rot)),
        Shape::Circle(c) => Shape::Circle(circle_transformed_spec(c, m.position, rot)),
    }
}

/// The world-space shape of an entity that may lack a movement: a purely
/// static collider keeps its stored shape unchanged.
pub open spec fn shape_world_spec(s: Shape, m: Option<Movement>) -> Shape {
    match m {
        Option::Some(mv) => shape_transformed_spec(s, mv),
        Option::None => s,
    }
}

impl Shape {
    /// Whether this shape overlaps another, whichever variants the two are.
    pub fn intersects(&self, shape: &Shape) -> (r: bool)
        requires
            shape_geo(*self),
            shape_geo(*shape),
        ensures
            r == shape_intersects_spec(*self, *shape),
    {
        match (self, shape) {
            (Shape::Aabb(aabb1), Shape::Aabb(aabb2)) => aabb1.intersects(aabb2),
            (Shape::Aabb(aabb), Shape::Obb(obb)) => obb.intersects_aabb(aabb),
            (Shape::Aabb(aabb), Shape::Circle(circle)) => aabb.intersects_circle(circle),
            (Shape::Obb(obb), Shape::Aabb(aabb)) => obb.intersects_aabb(aabb),
            (Shape::Obb(obb1), Shape::Obb(obb2)) => obb1.intersects(obb2),
            (Shape::Obb(obb), Shape::Circle(circle)) => obb.intersects_circle(circle),
            (Shape::Circle(circle), Shape::Aabb(aabb)) => circle.intersects_aabb(aabb),
            (Shape::Circle(circle), Shape::Obb(obb)) => obb.intersects_circle(circle),
            (Shape::Circle(circle1), Shape::Circle(circle2)) => circle1.intersects(circle2),
        }
    }

    /// The shape carried into world space by the owning entity's movement.
    /// Queried fresh before every test; never cached across frames.
    pub fn transformed_by(&self, movement: &Movement) -> (r: Shape)
        requires
            shape_wf(*self),
            movement_wf(*movement),
        ensures
            r == shape_transformed_spec(*self, *movement),
            shape_geo(r),
    {
        let rot: Rot2 = Rot2::from_angle(movement.rotation);
        match self {
            Shape::Aabb(aabb) => Shape::Aabb(aabb.transformed_by(movement.position, rot)),
            Shape::Obb(obb) => Shape::Obb(obb.transformed_by(movement.position, rot)),
            Shape::Circle(circle) => Shape::Circle(
                circle.transformed_by(movement.position, rot),
            ),
        }
    }

    /// Whether a uniform scale keeps the shape within the storage bound.
    pub open spec fn scale_ok_spec(self, scale: i64) -> bool {
        match self {
            Shape::Aabb(a) => {
                &&& fx_mul_spec(scale as int, a.half_size.x as int) <= FX_LIMIT as int
                &&& fx_mul_spec(scale as int, a.half_size.y as int) <= FX_LIMIT as int
                &&& scale * a.half_size.x <= 92_000_000_000_000_000_000_000
                &&& scale * a.half_size.y <= 92_000_000_000_000_000_000_000
            },
            Shape::Obb(o) => {
                &&& fx_mul_spec(scale as int, o.half_size.x as int) <= FX_LIMIT as int
                &&& fx_mul_spec(scale as int, o.half_size.y as int) <= FX_LIMIT as int
                &&& scale * o.half_size.x <= 92_000_000_000_000_000_000_000
                &&& scale * o.half_size.y <= 92_000_000_000_000_000_000_000
            },
            Shape::Circle(c) => {
                &&& fx_mul_spec(scale as int, c.radius as int) <= FX_LIMIT as int
                &&& scale * c.radius <= 92_000_000_000_000_000_000_000
            },
        }
    }

    /// The shape's extents scaled uniformly about its own center. A scale of
    /// zero degrades the shape to a point or a line; that is accepted, and
    /// the intersection tests still answer exactly.
    pub fn scaled(&self, scale: i64) -> (r: Shape)
        requires
            shape_wf(*self),
            0 <= scale,
            self.scale_ok_spec(scale),
        ensures
            shape_wf(r),
            match (*self, r) {
                (Shape::Aabb(a), Shape::Aabb(ra)) => {
                    &&& ra.center == a.center
                    &&& ra.half_size.x == fx_mul_spec(scale as int, a.half_size.x as int)
                    &&& ra.half_size.y == fx_mul_spec(scale as int, a.half_size.y as int)
                },
                (Shape::Obb(o), Shape::Obb(ro)) => {
                    &&& ro.center == o.center
                    &&& ro.rotation == o.rotation
                    &&& ro.half_size.x == fx_mul_spec(scale as int, o.half_size.x as int)
                    &&& ro.half_size.y == fx_mul_spec(scale as int, o.half_size.y as int)
                },
                (Shape::Circle(c), Shape::Circle(rc)) => {
                    &&& rc.center == c.center
                    &&& rc.radius == fx_mul_spec(scale as int, c.radius as int)
                },
                _ => false,
            },
    {
        match self {
            Shape::Aabb(aabb) => Shape::Aabb(aabb.scale_around_center(scale)),
            Shape::Obb(obb) => Shape::Obb(obb.scale_around_center(scale)),
            Shape::Circle(circle) => Shape::Circle(circle.scale_around_center(scale)),
        }
    }
}

/// Intersection of shapes is symmetric: whichever dispatch path an ordered
/// pair takes, swapping the arguments cannot change the answer.
pub proof fn lemma_shape_intersects_symmetric(a: Shape, b: Shape)
    ensures
        shape_intersects_spec(a, b) == shape_intersects_spec(b, a),
{
    match (a, b) {
        (Shape::Aabb(a1), Shape::Aabb(a2)) => {
        },
        (Shape::Obb(o1), Shape::Obb(o2)) => {
            crate::obb::lemma_obb_intersects_symmetric(o1, o2);
        },
        (Shape::Circle(c1), Shape::Circle(c2)) => {
            assert((c2.center.x - c1.center.x) * (c2.center.x - c1.center.x) == (c1.center.x
                - c2.center.x) * (c1.center.x - c2.center.x) && (c2.center.y - c1.center.y) * (
            c2.center.y - c1.center.y) == (c1.center.y - c2.center.y) * (c1.center.y
                - c2.center.y)) by (nonlinear_arith);
        },
        _ => {
        },
    }
}

/// An oriented box with no rotation behaves exactly as the axis-aligned box
/// with the same center and half-extents, against every shape.
pub proof fn lemma_unrotated_obb_is_aabb(o: Obb2d, s: Shape)
    requires
        o.rotation == (Rot2 { cos: FX_ONE, sin: 0i64 }),
    ensures
        shape_intersects_spec(Shape::Obb(o), s) == shape_intersects_spec(
            Shape::Aabb(Aabb2d { center: o.center, half_size: o.half_size }),
            s,
        ),
{
    let e = Aabb2d { center: o.center, half_size: o.half_size };
    assert(o == obb_from_aabb_spec(e));
    match s {
        Shape::Aabb(x) => {
            crate::obb::lemma_obb_identity_pair_is_aabb(e, x);
        },
        Shape::Obb(x) => {
            crate::obb::lemma_obb_intersects_symmetric(o, x);
        },
        Shape::Circle(c) => {
            crate::obb::lemma_obb_identity_circle_is_aabb(e, c);
        },
    }
}

/// A collider: a local-space shape and an enable flag. A disabled collider
/// takes part in no detection; toggling the flag is the sole suppression
/// mechanism.
#[derive(Clone, Copy, PartialEq, Eq, Structural, Debug)]
pub struct Collider {
    pub enabled: bool,
    pub shape: Shape,
}

impl Collider {
    /// An enabled collider around a shape.
    pub fn from_shape(shape: Shape) -> (r: Collider)
        ensures
            r == (Collider { enabled: true, shape }),
    {
        Collider { enabled: true, shape }
    }
}

impl Default for Collider {
    /// An enabled unit box around the origin.
    fn default() -> (r: Collider)
        ensures
            r.enabled,
            r.shape == Shape::Aabb(
                Aabb2d {
                    center: Vec2 { x: 0i64, y: 0i64 },
                    half_size: Vec2 { x: FX_ONE, y: FX_ONE },
                },
            ),
    {
        Collider {
            enabled: true,
            shape: Shape::Aabb(
                Aabb2d {
                    center: Vec2 { x: 0, y: 0 },
                    half_size: Vec2 { x: FX_ONE, y: FX_ONE },
                },
            ),
        }
    }
}

/// The integer behind a layer mask.
pub type BitMask = u8;

/// A set of collision layers as a bitmask.
#[derive(Clone, Copy, PartialEq, Eq, Structural, Hash, Default, Debug)]
pub struct LayerMask(pub BitMask);

impl LayerMask {
    /// The mask holding every layer.
    pub fn all() -> (r: LayerMask)
        ensures
            r.0 == 0xffu8,
    {
        LayerMask(0xff)
    }

    /// The empty mask.
    pub fn none() -> (r: LayerMask)
        ensures
            r.0 == 0u8,
    {
        LayerMask(0)
    }
}

/// Which layers an entity occupies and which it tests against. Two colliders
/// interact iff each one's membership meets the other's filter.
#[derive(Clone, Copy, PartialEq, Eq, Structural, Debug)]
pub struct CollisionLayers {
    members: LayerMask,
    filters: LayerMask,
}

/// The membership mask of a `CollisionLayers`.
pub closed spec fn members_spec(l: CollisionLayers) -> u8 {
    l.members.0
}

/// The filter mask of a `CollisionLayers`.
pub closed spec fn filters_spec(l: CollisionLayers) -> u8 {
    l.filters.0
}

/// The bidirectional mask test: both directions must pass.
pub open spec fn layers_interact_spec(a: CollisionLayers, b: CollisionLayers) -> bool {
    (members_spec(a) & filters_spec(b)) != 0 && (filters_spec(a) & members_spec(b)) != 0
}

impl CollisionLayers {
    /// Layers from a membership mask and a filter mask.
    pub fn new(members: LayerMask, filters: LayerMask) -> (r: CollisionLayers)
        ensures
            members_spec(r) == members.0,
            filters_spec(r) == filters.0,
    {
        CollisionLayers { members, filters }
    }

    /// Whether this entity and another are eligible to collide: each one's
    /// membership must meet the other's filter.
    pub fn interact_with(&self, layers: &CollisionLayers) -> (r: bool)
        ensures
            r == layers_interact_spec(*self, *layers),
    {
        (self.members.0 & layers.filters.0) != 0 && (self.filters.0 & layers.members.0) != 0
    }
}

impl Default for CollisionLayers {
    /// Member of every layer, filtering on none: interacts with nothing
    /// until a caller opts in.
    fn default() -> (r: CollisionLayers)
        ensures
            members_spec(r) == 0xffu8,
            filters_spec(r) == 0u8,
    {
        CollisionLayers { members: LayerMask(0xff), filters: LayerMask(0) }
    }
}

/// The mask test is symmetric in the two entities.
pub proof fn lemma_layers_interact_symmetric(a: CollisionLayers, b: CollisionLayers)
    ensures
        layers_interact_spec(a, b) == layers_interact_spec(b, a),
{
    let ma = members_spec(a);
    let fa = filters_spec(a);
    let mb = members_spec(b);
    let fb = filters_spec(b);
    assert((ma & fb) == (fb & ma)) by (bit_vector);
    assert((fa & mb) == (mb & fa)) by (bit_vector);
}

/// A collider whose filter mask is empty interacts with nothing, whatever
/// the other side holds.
pub proof fn lemma_empty_filters_interact_none(a: CollisionLayers, b: CollisionLayers)
    requires
        filters_spec(a) == 0,
    ensures
        !layers_interact_spec(a, b),
{
    let fa = filters_spec(a);
    let mb = members_spec(b);
    assert(fa == 0 ==> (fa & mb) == 0) by (bit_vector);
}

/// One reported collision: the two entities of an intersecting pair, the
/// first from the group declared first.
#[derive(Clone, Copy, PartialEq, Eq, Structural, Debug)]
pub struct CollisionEvent {
    pub first: u64,
    pub second: u64,
}

/// Everything the detector reads of one entity: its identity, the tag group
/// it belongs to, its collider, and its optional layers and movement.
#[derive(Clone, Copy, PartialEq, Eq, Structural, Debug)]
pub struct PhysicsEntity {
    pub entity: u64,
    pub group: u32,
    pub collider: Collider,
    pub layers: Option<CollisionLayers>,
    pub movement: Option<Movement>,
}

/// A well-formed detection candidate.
pub open spec fn physics_entity_wf(e: PhysicsEntity) -> bool {
    &&& shape_wf(e.collider.shape)
    &&& match e.movement {
        Option::Some(m) => movement_wf(m),
        Option::None => true,
    }
}

/// Whether the layer masks of two candidates allow a test: entities without
/// layers take part unconditionally.
pub open spec fn entity_layers_ok_spec(a: PhysicsEntity, b: PhysicsEntity) -> bool {
    match (a.layers, b.layers) {
        (Option::Some(x), Option::Some(y)) => layers_interact_spec(x, y),
        _ => true,
    }
}

/// Whether a pair is reported: both colliders enabled, the layers eligible,
/// the entities distinct, and the world-space shapes intersecting.
pub open spec fn detected_spec(a: PhysicsEntity, b: PhysicsEntity) -> bool {
    &&& a.collider.enabled
    &&& b.collider.enabled
    &&& entity_layers_ok_spec(a, b)
    &&& a.entity != b.entity
    &&& shape_intersects_spec(
        shape_world_spec(a.collider.shape, a.movement),
        shape_world_spec(b.collider.shape, b.movement),
    )
}

/// The event a reported pair emits.
pub open spec fn event_of_spec(a: PhysicsEntity, b: PhysicsEntity) -> CollisionEvent {
    CollisionEvent { first: a.entity, second: b.entity }
}

/// The events one candidate emits against the first `j` of the other group,
/// in order.
pub open spec fn detect_row_spec(a: PhysicsEntity, b: Seq<PhysicsEntity>, j: int) -> Seq<
    CollisionEvent,
>
    decreases j,
{
    if j <= 0 {
        Seq::empty()
    } else {
        detect_row_spec(a, b, j - 1) + if detected_spec(a, b[j - 1]) {
            seq![event_of_spec(a, b[j - 1])]
        } else {
            Seq::empty()
        }
    }
}

/// The events of the first `i` candidates of one group, each scanned against
/// the whole other group, in order.
pub open spec fn detect_between_spec(
    a: Seq<PhysicsEntity>,
    b: Seq<PhysicsEntity>,
    i: int,
) -> Seq<CollisionEvent>
    decreases i,
{
    if i <= 0 {
        Seq::empty()
    } else {
        detect_between_spec(a, b, i - 1) + detect_row_spec(a[i - 1], b, b.len() as int)
    }
}

/// An event stands in a row's output iff some candidate of the row produces
/// it.
pub proof fn lemma_detect_row_membership(
    a: PhysicsEntity,
    b: Seq<PhysicsEntity>,
    j: int,
    ev: CollisionEvent,
)
    requires
        0 <= j <= b.len(),
    ensures
        detect_row_spec(a, b, j).contains(ev) <==> exists|k: int|
            0 <= k < j && detected_spec(a, #[trigger] b[k]) && ev == event_of_spec(a, b[k]),
    decreases j,
{
    if j > 0 {
        lemma_detect_row_membership(a, b, j - 1, ev);
        let prev = detect_row_spec(a, b, j - 1);
        let whole = detect_row_spec(a, b, j);
        if whole.contains(ev) {
            let n = choose|n: int| 0 <= n < whole.len() && whole[n] == ev;
            if n < prev.len() {
                assert(prev[n] == ev);
                assert(prev.contains(ev));
            } else {
                assert(detected_spec(a, b[j - 1]) && ev == event_of_spec(a, b[j - 1]));
            }
        }
        if exists|k: int|
            0 <= k < j && detected_spec(a, #[trigger] b[k]) && ev == event_of_spec(a, b[k]) {
            let k = choose|k: int|
                0 <= k < j && detected_spec(a, #[trigger] b[k]) && ev == event_of_spec(a, b[k]);
            if k < j - 1 {
                assert(prev.contains(ev));
                let n = choose|n: int| 0 <= n < prev.len() && prev[n] == ev;
                assert(whole[n] == ev);
            } else {
                assert(whole[whole.len() - 1] == ev);
            }
        }
    }
}

/// An event stands in the detector's output iff some ordered pair of
/// candidates, the first from the first group, produces it.
pub proof fn lemma_detect_between_membership(
    a: Seq<PhysicsEntity>,
    b: Seq<PhysicsEntity>,
    i: int,
    ev: CollisionEvent,
)
    requires
        0 <= i <= a.len(),
    ensures
        detect_between_spec(a, b, i).contains(ev) <==> exists|p: int, q: int|
            0 <= p < i && 0 <= q < b.len() && detected_spec(#[trigger] a[p], #[trigger] b[q])
                && ev == event_of_spec(a[p], b[q]),
    decreases i,
{
    if i > 0 {
        lemma_detect_between_membership(a, b, i - 1, ev);
        lemma_detect_row_membership(a[i - 1], b, b.len() as int, ev);
        let prev = detect_between_spec(a, b, i - 1);
        let row = detect_row_spec(a[i - 1], b, b.len() as int);
        let whole = detect_between_spec(a, b, i);
        if whole.contains(ev) {
            let n = choose|n: int| 0 <= n < whole.len() && whole[n] == ev;
            if n < prev.len() {
                assert(prev[n] == ev);
                assert(prev.contains(ev));
            } else {
                assert(row[n - prev.len()] == ev);
                assert(row.contains(ev));
            }
        }
        if exists|p: int, q: int|
            0 <= p < i && 0 <= q < b.len() && detected_spec(#[trigger] a[p], #[trigger] b[q])
                && ev == event_of_spec(a[p], b[q]) {
            let (p, q) = choose|p: int, q: int|
                0 <= p < i && 0 <= q < b.len() && detected_spec(#[trigger] a[p], #[trigger] b[q])
                    && ev == event_of_spec(a[p], b[q]);
            if p < i - 1 {
                assert(prev.contains(ev));
                let n = choose|n: int| 0 <= n < prev.len() && prev[n] == ev;
                assert(whole[n] == ev);
            } else {
                assert(row.contains(ev));
                let n = choose|n: int| 0 <= n < row.len() && row[n] == ev;
                assert(whole[prev.len() + n] == ev);
            }
        }
    }
}

/// No event is ever emitted for a pair with a disabled collider: every event
/// in the output comes from a pair in which both colliders are enabled (and
/// which passed the layer test, was distinct, and overlapped).
pub proof fn lemma_disabled_collider_excluded(
    a: Seq<PhysicsEntity>,
    b: Seq<PhysicsEntity>,
    ev: CollisionEvent,
)
    requires
        detect_between_spec(a, b, a.len() as int).contains(ev),
    ensures
        exists|p: int, q: int|
            0 <= p < a.len() && 0 <= q < b.len() && (#[trigger] a[p]).collider.enabled && (
            #[trigger] b[q]).collider.enabled && detected_spec(a[p], b[q]) && ev == event_of_spec(
                a[p],
                b[q],
            ),
{
    lemma_detect_between_membership(a, b, a.len() as int, ev);
    let (p, q) = choose|p: int, q: int|
        0 <= p < a.len() && 0 <= q < b.len() && detected_spec(#[trigger] a[p], #[trigger] b[q])
            && ev == event_of_spec(a[p], b[q]);
    assert(a[p].collider.enabled && b[q].collider.enabled && detected_spec(a[p], b[q]) && ev
        == event_of_spec(a[p], b[q]));
}

/// Whether one candidate pair is reported, computing the world-space shapes
/// fresh for the test.
fn detect_pair(a: &PhysicsEntity, b: &PhysicsEntity) -> (r: bool)
    requires
        physics_entity_wf(*a),
        physics_entity_wf(*b),
    ensures
        r == detected_spec(*a, *b),
{
    if !a.collider.enabled || !b.collider.enabled {
        return false;
    }
    let layers_ok: bool = match (&a.layers, &b.layers) {
        (Option::Some(x), Option::Some(y)) => x.interact_with(y),
        _ => true,
    };
    if !layers_ok {
        return false;
    }
    if a.entity == b.entity {
        return false;
    }
    let wa: Shape = match &a.movement {
        Option::Some(m) => a.collider.shape.transformed_by(m),
        Option::None => a.collider.shape,
    };
    let wb: Shape = match &b.movement {
        Option::Some(m) => b.collider.shape.transformed_by(m),
        Option::None => b.collider.shape,
    };
    wa.intersects(&wb)
}

/// One detection pass of one declared group pair: every candidate of the
/// first group against every candidate of the second, in order, one event
/// per reported pair. Pairs per pass are never deduplicated: a pair that
/// stays overlapping and enabled is reported again on the next pass.
pub fn detect_between(
    first: &Vec<PhysicsEntity>,
    second: &Vec<PhysicsEntity>,
) -> (events: Vec<CollisionEvent>)
    requires
        forall|i: int| 0 <= i < first@.len() ==> physics_entity_wf(#[trigger] first@[i]),
        forall|j: int| 0 <= j < second@.len() ==> physics_entity_wf(#[trigger] second@[j]),
    ensures
        events@ == detect_between_spec(first@, second@, first@.len() as int),
{
    let mut events: Vec<CollisionEvent> = Vec::new();
    let n: usize = first.len();
    let m: usize = second.len();
    let mut i: usize = 0;
    while i < n
        invariant
            n == first@.len(),
            m == second@.len(),
            i <= n,
            forall|p: int| 0 <= p < n ==> physics_entity_wf(#[trigger] first@[p]),
            forall|q: int| 0 <= q < m ==> physics_entity_wf(#[trigger] second@[q]),
            events@ == detect_between_spec(first@, second@, i as int),
        decreases n - i,
    {
        let a: PhysicsEntity = first[i];
        let mut j: usize = 0;
        while j < m
            invariant
                n == first@.len(),
                m == second@.len(),
                i < n,
                j <= m,
                a == first@[i as int],
                forall|p: int| 0 <= p < n ==> physics_entity_wf(#[trigger] first@[p]),
                forall|q: int| 0 <= q < m ==> physics_entity_wf(#[trigger] second@[q]),
                events@ == detect_between_spec(first@, second@, i as int) + detect_row_spec(
                    a,
                    second@,
                    j as int,
                ),
            decreases m - j,
        {
            let b: PhysicsEntity = second[j];
            if detect_pair(&a, &b) {
                events.push(CollisionEvent { first: a.entity, second: b.entity });
            }
            j = j + 1;
        }
        i = i + 1;
    }
    events
}

} // verus!
