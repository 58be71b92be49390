//! The arena: a fixed-timestep rigid-body world with a floor, four
//! walls, two goal volumes, a ball and up to two bot bodies.
//!
//! Lengths are given in hundredths of a unit.  Where a real number
//! crosses into or out of the physics engine it is held as the bit
//! pattern of its single-precision value.

use vstd::prelude::*;
use vstd::multiset::Multiset;
use rapier3d::dynamics::{
    CCDSolver, ImpulseJointSet, IntegrationParameters, IslandManager, MultibodyJointSet,
    RigidBodyBuilder, RigidBodyHandle, RigidBodySet,
};
use rapier3d::geometry::{
    BroadPhaseMultiSap, ColliderBuilder, ColliderHandle, ColliderSet, CollisionEvent, NarrowPhase,
};
use rapier3d::math::{Real, Vector};
use rapier3d::pipeline::{ActiveEvents, ChannelEventCollector, PhysicsPipeline, QueryPipeline};
use crate::codec::ActionVector;
use crate::judge::{spec_object_code, Contact, ObjectType, Slot};

verus! {

#[verifier::external_type_specification]
#[verifier::external_body]
pub struct ExColliderSet(rapier3d::geometry::ColliderSet);

#[verifier::external_type_specification]
#[verifier::external_body]
pub struct ExRigidBodySet(rapier3d::dynamics::RigidBodySet);

#[verifier::external_type_specification]
#[verifier::external_body]
pub struct ExPhysicsPipeline(rapier3d::pipeline::PhysicsPipeline);

#[verifier::external_type_specification]
#[verifier::external_body]
pub struct ExIntegrationParameters(rapier3d::dynamics::IntegrationParameters);

#[verifier::external_type_specification]
#[verifier::external_body]
pub struct ExIslandManager(rapier3d::dynamics::IslandManager);

#[verifier::external_type_specification]
#[verifier::external_body]
pub struct ExBroadPhase(rapier3d::geometry::BroadPhaseMultiSap);

#[verifier::external_type_specification]
#[verifier::external_body]
pub struct ExNarrowPhase(rapier3d::geometry::NarrowPhase);

#[verifier::external_type_specification]
#[verifier::external_body]
pub struct ExImpulseJointSet(rapier3d::dynamics::ImpulseJointSet);

#[verifier::external_type_specification]
#[verifier::external_body]
pub struct ExMultibodyJointSet(rapier3d::dynamics::MultibodyJointSet);

#[verifier::external_type_specification]
#[verifier::external_body]
pub struct ExCcdSolver(rapier3d::dynamics::CCDSolver);

#[verifier::external_type_specification]
#[verifier::external_body]
pub struct ExQueryPipeline(rapier3d::pipeline::QueryPipeline);

#[verifier::external_type_specification]
#[verifier::external_body]
pub struct ExRigidBodyHandle(rapier3d::dynamics::RigidBodyHandle);

#[verifier::external_type_specification]
#[verifier::external_body]
pub struct ExColliderHandle(rapier3d::geometry::ColliderHandle);

#[verifier::external_type_specification]
#[verifier::external_body]
pub struct ExCollisionEvent(rapier3d::geometry::CollisionEvent);

/// The number of hundredths in a unit of length.
pub const HUNDREDTHS: i32 = 100;

/// Half the side of the floor and of the walls.
pub const WALL_HALF_LENGTH: i32 = 2000;

/// Half the thickness of the floor and of the walls.
pub const WALL_HALF_THICKNESS: i32 = 10;

/// The distance of a wall's center from the arena's center.
pub const WALL_DISTANCE: i32 = 1005;

/// The distance of a goal's center from the arena's center.
pub const GOAL_DISTANCE: i32 = 1040;

/// Half the depth of a goal volume.
pub const GOAL_HALF_DEPTH: i32 = 100;

/// Half the width and half the height of a goal volume.
pub const GOAL_HALF_WIDTH: i32 = 500;

/// The radius of the ball and of the bot bodies.
pub const BODY_RADIUS: i32 = 50;

/// How much of its speed a body keeps when it bounces.
pub const BODY_RESTITUTION: i32 = 70;

/// The height from which the ball is dropped.
pub const BALL_HEIGHT: i32 = 975;

/// The distance of a bot's spawn point from the arena's center.
pub const SPAWN_DISTANCE: i32 = 900;

/// The height, and the sideways offset, of a bot's spawn point.
pub const SPAWN_HEIGHT: i32 = 25;

/// The downward pull, in hundredths of a unit per second squared.
pub const GRAVITY: i32 = 981;

/// The size of the push that sets each bot moving when play starts.
pub const KICKOFF: i32 = 200;

/// Three lengths in hundredths of a unit.
#[derive(Clone, Copy, Debug, PartialEq, Eq, Structural)]
pub struct Offset {
    pub x: i32,
    pub y: i32,
    pub z: i32,
}

/// Three real numbers, each held as the bit pattern of its
/// single-precision value: where a body is, or a push given to it.
#[derive(Clone, Copy, Debug, PartialEq, Eq, Structural)]
pub struct Position {
    pub x: u32,
    pub y: u32,
    pub z: u32,
}

/// What a collider is made of.
#[derive(Clone, Copy, Debug, PartialEq, Eq, Structural)]
pub enum Fixture {
    /// A box that stays where it is and reports no collision.
    Cuboid { half_extents: Position, center: Position, mark: u128 },
    /// A sphere that is carried by a moving body and reports the
    /// collisions it is in.
    Ball { radius: u32, restitution: u32, mark: u128 },
}

/// What the physics engine reports of two colliders during a step.
#[derive(Clone, Copy, Debug)]
pub enum Collision {
    /// The two colliders began to touch.
    Started(ColliderHandle, ColliderHandle),
    /// The two colliders ceased to touch.
    Stopped(ColliderHandle, ColliderHandle),
}

/// Everything the physics engine keeps between steps.
pub struct Physics {
    colliders: ColliderSet,
    bodies: RigidBodySet,
    pipeline: PhysicsPipeline,
    parameters: IntegrationParameters,
    islands: IslandManager,
    broad_phase: BroadPhaseMultiSap,
    narrow_phase: NarrowPhase,
    impulse_joints: ImpulseJointSet,
    multibody_joints: MultibodyJointSet,
    ccd_solver: CCDSolver,
    query_pipeline: QueryPipeline,
}

/// An instantaneous push for one body.
#[derive(Clone, Copy, Debug)]
pub struct Push {
    pub body: RigidBodyHandle,
    pub impulse: Position,
}

/// The arena and what moves in it.
///
/// A push is not felt at once: it waits for the next step, which gives
/// the waiting pushes to their bodies, in the order in which they
/// came, and then advances the world.  The world keeps what its last
/// step gave and what contacts it raised, and counts its steps.
pub struct World {
    physics: Physics,
    ball: RigidBodyHandle,
    pending: Vec<Push>,
    driven: Vec<Push>,
    raised: Vec<Contact>,
    steps: u64,
}

/// The bit pattern of the single-precision quotient of two integers,
/// each converted to single precision first, for a divisor other than
/// zero.
pub uninterp spec fn spec_ratio_bits(numerator: int, denominator: int) -> u32;

/// The marks of the colliders that a collider set holds.
pub uninterp spec fn spec_collider_marks(colliders: ColliderSet) -> Multiset<u128>;

/// The colliders that a collider set holds: what each is made of.
pub uninterp spec fn spec_fixtures(colliders: ColliderSet) -> Multiset<Fixture>;

/// The colliders that a collider set holds: the mark of each, by its
/// handle.
pub uninterp spec fn spec_marks_by_handle(colliders: ColliderSet) -> Map<ColliderHandle, u128>;

/// The bodies that a rigid-body set holds: where each is, by its
/// handle.
pub uninterp spec fn spec_body_places(bodies: RigidBodySet) -> Map<RigidBodyHandle, Position>;

/// Whether a bit pattern is that of a finite single-precision number:
/// one whose exponent field is not all ones.
pub open spec fn spec_is_finite_bits(bits: u32) -> bool {
    (bits as int / 8388608) % 256 != 255
}

/// Whether all three numbers are finite.
pub open spec fn spec_is_finite(triple: Position) -> bool {
    spec_is_finite_bits(triple.x) && spec_is_finite_bits(triple.y) && spec_is_finite_bits(
        triple.z,
    )
}

/// The contact that a collision makes known, given the marks of the
/// colliders: a collision that started between two colliders that
/// both carry a mark is a contact of those marks, in the same order;
/// any other collision is none.
pub open spec fn spec_contact_of(collision: Collision, marks: Map<ColliderHandle, u128>) -> Option<
    Contact,
> {
    match collision {
        Collision::Started(first, second) => if marks.dom().contains(first)
            && marks.dom().contains(second) {
            Some(Contact { first: marks[first], second: marks[second] })
        } else {
            None
        },
        Collision::Stopped(_, _) => None,
    }
}

/// The contacts that a run of collisions makes known, in the order of
/// the collisions.
pub open spec fn spec_contacts_of(
    collisions: Seq<Collision>,
    marks: Map<ColliderHandle, u128>,
) -> Seq<Contact>
    decreases collisions.len(),
{
    if collisions.len() == 0 {
        Seq::empty()
    } else {
        let earlier = spec_contacts_of(collisions.drop_last(), marks);
        match spec_contact_of(collisions.last(), marks) {
            Some(contact) => earlier.push(contact),
            None => earlier,
        }
    }
}

/// A fixed box.
pub open spec fn spec_cuboid(half_extents: Position, center: Position, mark: u128) -> Fixture {
    Fixture::Cuboid { half_extents, center, mark }
}

/// A sphere on a moving body.
pub open spec fn spec_ball(radius: u32, restitution: u32, mark: u128) -> Fixture {
    Fixture::Ball { radius, restitution, mark }
}

/// A wall, or the floor: a fixed box, given in hundredths, that stands
/// for nothing in particular.
pub open spec fn spec_wall(half_extents: Offset, center: Offset) -> Fixture {
    spec_cuboid(spec_offset_bits(half_extents), spec_offset_bits(center), 0)
}

/// The goal volume of a slot: one unit deep, five wide and five high
/// to either side of its center, which lies 10.4 units from the
/// arena's center, on the first bot's side at negative x and on the
/// second bot's at positive x.
pub open spec fn spec_goal(slot: Slot) -> Fixture {
    spec_cuboid(
        spec_offset_bits(Offset { x: 100, y: 500, z: 500 }),
        spec_offset_bits(
            Offset {
                x: match slot {
                    Slot::One => (-1040i32),
                    Slot::Two => 1040i32,
                },
                y: 0,
                z: 0,
            },
        ),
        match slot {
            Slot::One => 2,
            Slot::Two => 3,
        },
    )
}

/// The sphere of the ball or of a bot: half a unit in radius, keeping
/// seven tenths of its speed when it bounces.
pub open spec fn spec_body_ball(mark: u128) -> Fixture {
    spec_ball(spec_ratio_bits(50, 100), spec_ratio_bits(70, 100), mark)
}

/// The colliders of an arena without bots: the floor, the four walls,
/// the two goals, and the ball.
pub open spec fn spec_arena_fixtures() -> Multiset<Fixture> {
    Multiset::empty().insert(
        spec_wall(Offset { x: 2000, y: 10, z: 2000 }, Offset { x: 0, y: (-5i32), z: 0 }),
    ).insert(
        spec_wall(Offset { x: 10, y: 2000, z: 2000 }, Offset { x: (-1005i32), y: 0, z: 0 }),
    ).insert(
        spec_wall(Offset { x: 2000, y: 2000, z: 10 }, Offset { x: 0, y: 0, z: 1005 }),
    ).insert(
        spec_wall(Offset { x: 10, y: 2000, z: 2000 }, Offset { x: 1005, y: 0, z: 0 }),
    ).insert(
        spec_wall(Offset { x: 2000, y: 2000, z: 10 }, Offset { x: 0, y: 0, z: (-1005i32) }),
    ).insert(spec_goal(Slot::One)).insert(spec_goal(Slot::Two)).insert(spec_body_ball(1))
}

/// The pull of gravity: straight down.
pub open spec fn spec_gravity() -> Position {
    spec_offset_bits(Offset { x: 0, y: (-981i32), z: 0 })
}

/// A rigid-body set without bodies.
pub open spec fn spec_no_bodies() -> Map<RigidBodyHandle, Position> {
    Map::empty()
}

/// The three coordinates of an offset as single-precision bit
/// patterns.
pub open spec fn spec_offset_bits(offset: Offset) -> Position {
    Position {
        x: spec_ratio_bits(offset.x as int, 100),
        y: spec_ratio_bits(offset.y as int, 100),
        z: spec_ratio_bits(offset.z as int, 100),
    }
}

/// The push that a decoded action asks for: each numerator over 127.
pub open spec fn spec_action_impulse(action: ActionVector) -> Position {
    Position {
        x: spec_ratio_bits(action.x as int, 127),
        y: spec_ratio_bits(action.y as int, 127),
        z: spec_ratio_bits(action.z as int, 127),
    }
}

/// Where the bot of a slot is spawned: the two slots mirror each
/// other along the x axis.
pub open spec fn spec_spawn_point(slot: Slot) -> Offset {
    match slot {
        Slot::One => Offset { x: (-900i32), y: 25, z: 25 },
        Slot::Two => Offset { x: 900, y: 25, z: 25 },
    }
}

/// The push that sets the bot of a slot moving when play starts: along
/// the x axis, towards the opponent.
pub open spec fn spec_kickoff(slot: Slot) -> Offset {
    match slot {
        Slot::One => Offset { x: 200, y: 0, z: 0 },
        Slot::Two => Offset { x: (-200i32), y: 0, z: 0 },
    }
}

/// The marks of the colliders of an arena without bots: the floor and
/// four walls, the two goals, and the ball.
pub open spec fn spec_arena_marks() -> Multiset<u128> {
    Multiset::empty().insert(0).insert(0).insert(0).insert(0).insert(0).insert(2).insert(
        3,
    ).insert(1)
}

/// Single-precision division, `/` on the scalar type of `rapier3d`
/// after an `as` conversion of each integer, by a divisor other than
/// zero.  The contract names the quotient's bit pattern: the
/// conversion and the division are those of IEEE 754, which fix the
/// result for each such pair of integers.  The quotient is at most
/// 2^31 in size, and so finite.
#[verifier::external_body]
fn ratio_bits(numerator: i32, denominator: i32) -> (bits: u32)
    requires
        denominator != 0,
    ensures
        bits == spec_ratio_bits(numerator as int, denominator as int),
        spec_is_finite_bits(bits),
{
    std::ops::Div::div(numerator as Real, denominator as Real).to_bits()
}

/// The constructors of `rapier3d`'s sets and solvers
/// (`ColliderSet::new`, `RigidBodySet::new`, `PhysicsPipeline::new`
/// and the others), and `IntegrationParameters::default`.  A new
/// collider set holds no collider, and a new rigid-body set no body.
#[verifier::external_body]
fn empty_physics() -> (physics: Physics)
    ensures
        spec_collider_marks(physics.colliders) == Multiset::<u128>::empty(),
        spec_fixtures(physics.colliders) == Multiset::<Fixture>::empty(),
        spec_body_places(physics.bodies) == spec_no_bodies(),
{
    Physics {
        colliders: ColliderSet::new(),
        bodies: RigidBodySet::new(),
        pipeline: PhysicsPipeline::new(),
        parameters: IntegrationParameters::default(),
        islands: IslandManager::new(),
        broad_phase: BroadPhaseMultiSap::new(),
        narrow_phase: NarrowPhase::new(),
        impulse_joints: ImpulseJointSet::new(),
        multibody_joints: MultibodyJointSet::new(),
        ccd_solver: CCDSolver::new(),
        query_pipeline: QueryPipeline::new(),
    }
}

/// `ColliderBuilder::cuboid`, `translation`, `user_data`, `build` and
/// `ColliderSet::insert`: adds one fixed box of the given half extents
/// and center, with the given mark, to the collider set.  The bodies
/// are not touched.
#[verifier::external_body]
fn insert_cuboid(physics: &mut Physics, half_extents: Position, center: Position, mark: u128)
    requires
        spec_is_finite(half_extents),
        spec_is_finite(center),
    ensures
        spec_collider_marks(final(physics).colliders) == spec_collider_marks(
            old(physics).colliders,
        ).insert(mark),
        spec_fixtures(final(physics).colliders) == spec_fixtures(old(physics).colliders).insert(
            spec_cuboid(half_extents, center, mark),
        ),
        spec_body_places(final(physics).bodies) == spec_body_places(old(physics).bodies),
{
    let shape = ColliderBuilder::cuboid(
        Real::from_bits(half_extents.x),
        Real::from_bits(half_extents.y),
        Real::from_bits(half_extents.z),
    );
    let place =
        Vector::new(Real::from_bits(center.x), Real::from_bits(center.y), Real::from_bits(center.z));
    physics.colliders.insert(shape.translation(place).user_data(mark).build());
}

/// `RigidBodyBuilder::dynamic`, `RigidBodySet::insert`,
/// `ColliderBuilder::ball` and `ColliderSet::insert_with_parent`: adds
/// a moving sphere that reports its collisions, with one collider of
/// the given radius and restitution that carries the given mark, and
/// returns the body's handle.  The handle
/// is one that the set did not hold; from then on the set holds the
/// body under it, at the given center.
#[verifier::external_body]
fn insert_sphere(
    physics: &mut Physics,
    center: Position,
    radius: u32,
    restitution: u32,
    mark: u128,
) -> (handle: RigidBodyHandle)
    requires
        spec_is_finite(center),
        spec_is_finite_bits(radius),
        spec_is_finite_bits(restitution),
    ensures
        spec_collider_marks(final(physics).colliders) == spec_collider_marks(
            old(physics).colliders,
        ).insert(mark),
        spec_fixtures(final(physics).colliders) == spec_fixtures(old(physics).colliders).insert(
            spec_ball(radius, restitution, mark),
        ),
        !spec_body_places(old(physics).bodies).dom().contains(handle),
        spec_body_places(final(physics).bodies) == spec_body_places(old(physics).bodies).insert(
            handle,
            center,
        ),
{
    let place =
        Vector::new(Real::from_bits(center.x), Real::from_bits(center.y), Real::from_bits(center.z));
    let handle = physics.bodies.insert(RigidBodyBuilder::dynamic().translation(place).build());
    let shape = ColliderBuilder::ball(Real::from_bits(radius))
        .active_events(ActiveEvents::COLLISION_EVENTS)
        .restitution(Real::from_bits(restitution))
        .user_data(mark);
    physics.colliders.insert_with_parent(shape.build(), handle, &mut physics.bodies);
    handle
}

/// `RigidBodySet::get` and `RigidBody::translation`: where the body
/// is, or `None` if the set has no body under that handle.
#[verifier::external_body]
fn translation_bits(physics: &Physics, handle: RigidBodyHandle) -> (place: Option<Position>)
    ensures
        place == (if spec_body_places(physics.bodies).dom().contains(handle) {
            Some(spec_body_places(physics.bodies)[handle])
        } else {
            None
        }),
{
    physics.bodies.get(handle).map(|body| body.translation()).map(|at| Position {
        x: at.x.to_bits(),
        y: at.y.to_bits(),
        z: at.z.to_bits(),
    })
}

/// `RigidBodySet::get_mut` and `RigidBody::apply_impulse`, waking the
/// body up.  Returns whether the set has a body under that handle.
/// A push changes how a body moves, not where it is; neither a body
/// nor a collider is added or removed.
#[verifier::external_body]
fn push_body(physics: &mut Physics, handle: RigidBodyHandle, impulse: Position) -> (found: bool)
    requires
        spec_is_finite(impulse),
    ensures
        found == spec_body_places(old(physics).bodies).dom().contains(handle),
        spec_collider_marks(final(physics).colliders) == spec_collider_marks(
            old(physics).colliders,
        ),
        spec_fixtures(final(physics).colliders) == spec_fixtures(old(physics).colliders),
        spec_body_places(final(physics).bodies) == spec_body_places(old(physics).bodies),
{
    let push =
        Vector::new(Real::from_bits(impulse.x), Real::from_bits(impulse.y), Real::from_bits(impulse.z));
    physics.bodies.get_mut(handle).map(|body| body.apply_impulse(push, true)).is_some()
}

/// `PhysicsPipeline::step` with a `ChannelEventCollector`: advances
/// the world by one timestep and returns the collision events of that
/// step in the order in which they were raised.  A step neither adds
/// nor removes a body or a collider, nor changes what a collider is
/// made of.
#[verifier::external_body]
fn advance(physics: &mut Physics, gravity: Position) -> (events: Vec<CollisionEvent>)
    requires
        spec_is_finite(gravity),
    ensures
        spec_collider_marks(final(physics).colliders) == spec_collider_marks(
            old(physics).colliders,
        ),
        spec_fixtures(final(physics).colliders) == spec_fixtures(old(physics).colliders),
        spec_body_places(final(physics).bodies).dom() == spec_body_places(
            old(physics).bodies,
        ).dom(),
{
    let (collisions, raised) = rapier3d::crossbeam::channel::unbounded();
    let (forces, _unread) = rapier3d::crossbeam::channel::unbounded();
    let collector = ChannelEventCollector::new(collisions, forces);
    let pull =
        Vector::new(Real::from_bits(gravity.x), Real::from_bits(gravity.y), Real::from_bits(gravity.z));
    physics.pipeline.step(&pull, &physics.parameters, &mut physics.islands, &mut physics.broad_phase,
        &mut physics.narrow_phase, &mut physics.bodies, &mut physics.colliders,
        &mut physics.impulse_joints, &mut physics.multibody_joints, &mut physics.ccd_solver,
        Some(&mut physics.query_pipeline), &(), &collector);
    raised.try_iter().collect()
}

/// Tells the two variants of `CollisionEvent` apart, one arm each,
/// and keeps the two collider handles of either.
#[verifier::external_body]
fn collision_of(event: &CollisionEvent) -> (collision: Collision) {
    match event {
        CollisionEvent::Started(first, second, _) => Collision::Started(*first, *second),
        CollisionEvent::Stopped(first, second, _) => Collision::Stopped(*first, *second),
    }
}

/// `ColliderSet::get` and the collider's `user_data`: the mark of the
/// collider under that handle, which is one of the marks the set
/// holds, or `None` if the set has no such collider.
#[verifier::external_body]
fn mark_of(physics: &Physics, handle: ColliderHandle) -> (mark: Option<u128>)
    ensures
        mark == (if spec_marks_by_handle(physics.colliders).dom().contains(handle) {
            Some(spec_marks_by_handle(physics.colliders)[handle])
        } else {
            None
        }),
        mark matches Some(m) ==> spec_collider_marks(physics.colliders).contains(m),
{
    physics.colliders.get(handle).map(|collider| collider.user_data)
}

/// Whether a bit pattern is that of a finite single-precision number.
pub fn is_finite_bits(bits: u32) -> (finite: bool)
    ensures
        finite == spec_is_finite_bits(bits),
{
    let exponent: u32 = (bits >> 23) & 0xFF;
    assert(exponent == (bits / 8388608) % 256) by (bit_vector)
        requires
            exponent == (bits >> 23) & 0xFF,
    ;
    exponent != 0xFF
}

impl Position {
    /// Whether all three numbers are finite.
    pub fn is_finite(&self) -> (finite: bool)
        ensures
            finite == spec_is_finite(*self),
    {
        is_finite_bits(self.x) && is_finite_bits(self.y) && is_finite_bits(self.z)
    }
}

/// The three coordinates of an offset as single-precision bit
/// patterns.
pub fn offset_bits(offset: Offset) -> (bits: Position)
    ensures
        bits == spec_offset_bits(offset),
        spec_is_finite(bits),
{
    Position {
        x: ratio_bits(offset.x, HUNDREDTHS),
        y: ratio_bits(offset.y, HUNDREDTHS),
        z: ratio_bits(offset.z, HUNDREDTHS),
    }
}

/// The push that a decoded action asks for.
pub fn action_impulse(action: ActionVector) -> (impulse: Position)
    ensures
        impulse == spec_action_impulse(action),
        spec_is_finite(impulse),
{
    Position {
        x: ratio_bits(action.x as i32, 127),
        y: ratio_bits(action.y as i32, 127),
        z: ratio_bits(action.z as i32, 127),
    }
}

/// Where the bot of a slot is spawned.
pub fn spawn_point(slot: Slot) -> (point: Offset)
    ensures
        point == spec_spawn_point(slot),
        point.x == -spec_spawn_point(slot.opponent_spec()).x,
        point.y == spec_spawn_point(slot.opponent_spec()).y,
        point.z == spec_spawn_point(slot.opponent_spec()).z,
{
    match slot {
        Slot::One => Offset { x: -SPAWN_DISTANCE, y: SPAWN_HEIGHT, z: SPAWN_HEIGHT },
        Slot::Two => Offset { x: SPAWN_DISTANCE, y: SPAWN_HEIGHT, z: SPAWN_HEIGHT },
    }
}

/// The push that sets the bot of a slot moving when play starts.
pub fn kickoff(slot: Slot) -> (push: Offset)
    ensures
        push == spec_kickoff(slot),
        push.x == -spec_kickoff(slot.opponent_spec()).x,
        push.y == spec_kickoff(slot.opponent_spec()).y,
        push.z == spec_kickoff(slot.opponent_spec()).z,
{
    match slot {
        Slot::One => Offset { x: KICKOFF, y: 0, z: 0 },
        Slot::Two => Offset { x: -KICKOFF, y: 0, z: 0 },
    }
}

/// A copy of a run of contacts.
fn copy_of(contacts: &Vec<Contact>) -> (copy: Vec<Contact>)
    ensures
        copy@ == contacts@,
{
    let mut copy: Vec<Contact> = Vec::new();
    let mut i: usize = 0;
    while i < contacts.len()
        invariant
            i <= contacts.len(),
            copy@ == contacts@.take(i as int),
        decreases contacts.len() - i,
    {
        copy.push(contacts[i]);
        proof {
            assert(copy@ =~= contacts@.take(i + 1));
        }
        i += 1;
    }
    proof {
        assert(contacts@.take(i as int) =~= contacts@);
    }
    copy
}

impl World {
    /// The marks of all colliders in the world.
    pub closed spec fn marks(&self) -> Multiset<u128> {
        spec_collider_marks(self.physics.colliders)
    }

    /// What each collider in the world is made of.
    pub closed spec fn fixtures(&self) -> Multiset<Fixture> {
        spec_fixtures(self.physics.colliders)
    }

    /// The mark of each collider in the world, by its handle.
    pub closed spec fn marks_by_handle(&self) -> Map<ColliderHandle, u128> {
        spec_marks_by_handle(self.physics.colliders)
    }

    /// The pushes that wait for the next step, oldest first.
    pub closed spec fn pending(&self) -> Seq<Push> {
        self.pending@
    }

    /// The pushes that the last step gave, in the order in which it
    /// gave them.
    pub closed spec fn driven(&self) -> Seq<Push> {
        self.driven@
    }

    /// The contacts that began during the last step, in the order in
    /// which they were raised.
    pub closed spec fn raised(&self) -> Seq<Contact> {
        self.raised@
    }

    /// The number of steps taken; it stops counting at the largest
    /// number it can hold.
    pub closed spec fn steps(&self) -> u64 {
        self.steps
    }

    /// What holds of every world: each push that waits is finite and
    /// is for a body of the world.
    pub closed spec fn wf(&self) -> bool {
        forall|i: int|
            0 <= i < self.pending@.len() ==> spec_is_finite((#[trigger] self.pending@[i]).impulse)
                && self.bodies().contains(self.pending@[i].body)
    }

    /// Where each body in the world is, by its handle.
    pub closed spec fn places(&self) -> Map<RigidBodyHandle, Position> {
        spec_body_places(self.physics.bodies)
    }

    /// The handles of all bodies in the world.
    pub open spec fn bodies(&self) -> Set<RigidBodyHandle> {
        self.places().dom()
    }

    /// The handle of the ball.
    pub closed spec fn ball_handle(&self) -> RigidBodyHandle {
        self.ball
    }

    /// Builds the arena: floor, four walls, the two goals and the
    /// ball.
    pub fn new() -> (world: World)
        ensures
            world.marks() == spec_arena_marks(),
            world.wf(),
            world.pending() == Seq::<Push>::empty(),
            world.driven() == Seq::<Push>::empty(),
            world.raised() == Seq::<Contact>::empty(),
            world.steps() == 0,
            world.fixtures() == spec_arena_fixtures(),
            world.places() == spec_no_bodies().insert(
                world.ball_handle(),
                spec_offset_bits(Offset { x: 0, y: 975, z: 0 }),
            ),
    {
        let mut physics = empty_physics();
        let plain = ObjectType::Any.code();
        let floor = Offset { x: WALL_HALF_LENGTH, y: WALL_HALF_THICKNESS, z: WALL_HALF_LENGTH };
        let side = Offset { x: WALL_HALF_THICKNESS, y: WALL_HALF_LENGTH, z: WALL_HALF_LENGTH };
        let end = Offset { x: WALL_HALF_LENGTH, y: WALL_HALF_LENGTH, z: WALL_HALF_THICKNESS };
        let goal = Offset { x: GOAL_HALF_DEPTH, y: GOAL_HALF_WIDTH, z: GOAL_HALF_WIDTH };
        insert_cuboid(
            &mut physics,
            offset_bits(floor),
            offset_bits(Offset { x: 0, y: -5, z: 0 }),
            plain,
        );
        insert_cuboid(
            &mut physics,
            offset_bits(side),
            offset_bits(Offset { x: -WALL_DISTANCE, y: 0, z: 0 }),
            plain,
        );
        insert_cuboid(
            &mut physics,
            offset_bits(end),
            offset_bits(Offset { x: 0, y: 0, z: WALL_DISTANCE }),
            plain,
        );
        insert_cuboid(
            &mut physics,
            offset_bits(side),
            offset_bits(Offset { x: WALL_DISTANCE, y: 0, z: 0 }),
            plain,
        );
        insert_cuboid(
            &mut physics,
            offset_bits(end),
            offset_bits(Offset { x: 0, y: 0, z: -WALL_DISTANCE }),
            plain,
        );
        insert_cuboid(
            &mut physics,
            offset_bits(goal),
            offset_bits(Offset { x: -GOAL_DISTANCE, y: 0, z: 0 }),
            ObjectType::Bot1Goal.code(),
        );
        insert_cuboid(
            &mut physics,
            offset_bits(goal),
            offset_bits(Offset { x: GOAL_DISTANCE, y: 0, z: 0 }),
            ObjectType::Bot2Goal.code(),
        );
        let ball = insert_sphere(
            &mut physics,
            offset_bits(Offset { x: 0, y: BALL_HEIGHT, z: 0 }),
            ratio_bits(BODY_RADIUS, HUNDREDTHS),
            ratio_bits(BODY_RESTITUTION, HUNDREDTHS),
            ObjectType::Ball.code(),
        );
        World {
            physics,
            ball,
            pending: Vec::new(),
            driven: Vec::new(),
            raised: Vec::new(),
            steps: 0,
        }
    }

    /// Adds a moving body at `position` whose collider is marked as
    /// `object_type`, and returns its handle.
    pub fn create_bot_handle(&mut self, position: Offset, object_type: ObjectType) -> (handle:
        RigidBodyHandle)
        requires
            old(self).wf(),
        ensures
            final(self).wf(),
            final(self).pending() == old(self).pending(),
            final(self).driven() == old(self).driven(),
            final(self).raised() == old(self).raised(),
            final(self).steps() == old(self).steps(),
            final(self).marks() == old(self).marks().insert(spec_object_code(object_type)),
            final(self).fixtures() == old(self).fixtures().insert(
                spec_body_ball(spec_object_code(object_type)),
            ),
            !old(self).bodies().contains(handle),
            final(self).places() == old(self).places().insert(handle, spec_offset_bits(position)),
            final(self).ball_handle() == old(self).ball_handle(),
    {
        insert_sphere(
            &mut self.physics,
            offset_bits(position),
            ratio_bits(BODY_RADIUS, HUNDREDTHS),
            ratio_bits(BODY_RESTITUTION, HUNDREDTHS),
            object_type.code(),
        )
    }

    /// Spawns the body of the bot in `slot` at the slot's spawn point.
    pub fn spawn_bot(&mut self, slot: Slot) -> (handle: RigidBodyHandle)
        requires
            old(self).wf(),
        ensures
            final(self).wf(),
            final(self).pending() == old(self).pending(),
            final(self).driven() == old(self).driven(),
            final(self).raised() == old(self).raised(),
            final(self).steps() == old(self).steps(),
            final(self).marks() == old(self).marks().insert(
                spec_object_code(slot.body_type_spec()),
            ),
            final(self).fixtures() == old(self).fixtures().insert(
                spec_body_ball(spec_object_code(slot.body_type_spec())),
            ),
            !old(self).bodies().contains(handle),
            final(self).places() == old(self).places().insert(
                handle,
                spec_offset_bits(spec_spawn_point(slot)),
            ),
            final(self).ball_handle() == old(self).ball_handle(),
    {
        self.create_bot_handle(spawn_point(slot), slot.body_type())
    }

    /// The handle of the ball.
    pub fn ball(&self) -> (handle: RigidBodyHandle)
        ensures
            handle == self.ball_handle(),
    {
        self.ball
    }

    /// Where the body under `handle` is, or `None` if the world has no
    /// such body.
    pub fn position_of(&self, handle: RigidBodyHandle) -> (place: Option<Position>)
        ensures
            place == (if self.bodies().contains(handle) {
                Some(self.places()[handle])
            } else {
                None
            }),
    {
        translation_bits(&self.physics, handle)
    }

    /// Orders an instantaneous push for the body under `handle`, to be
    /// given by the next step.  A push that is not finite is not
    /// taken, nor one for a body that the world does not have; the
    /// result says whether the push was taken.
    pub fn apply_impulse(&mut self, handle: RigidBodyHandle, impulse: Position) -> (given: bool)
        requires
            old(self).wf(),
        ensures
            final(self).wf(),
            given == (old(self).bodies().contains(handle) && spec_is_finite(impulse)),
            given ==> final(self).pending() == old(self).pending().push(
                Push { body: handle, impulse },
            ),
            !given ==> final(self).pending() == old(self).pending(),
            final(self).driven() == old(self).driven(),
            final(self).raised() == old(self).raised(),
            final(self).steps() == old(self).steps(),
            final(self).marks() == old(self).marks(),
            final(self).fixtures() == old(self).fixtures(),
            final(self).places() == old(self).places(),
            final(self).ball_handle() == old(self).ball_handle(),
    {
        if !impulse.is_finite() {
            return false;
        }
        if self.position_of(handle).is_none() {
            return false;
        }
        self.pending.push(Push { body: handle, impulse });
        true
    }

    /// The pull under which the world is stepped.
    pub fn gravity() -> (pull: Position)
        ensures
            pull == spec_gravity(),
            spec_is_finite(pull),
    {
        offset_bits(Offset { x: 0, y: -GRAVITY, z: 0 })
    }

    /// The contacts that a run of collisions makes known, in the order
    /// of the collisions: one for each collision that started between
    /// two colliders of this world, made of their two marks.
    pub fn contacts_of(&self, collisions: &Vec<Collision>) -> (contacts: Vec<Contact>)
        ensures
            contacts@ == spec_contacts_of(collisions@, self.marks_by_handle()),
            forall|i: int|
                0 <= i < contacts.len() ==> self.marks().contains((#[trigger] contacts[i]).first)
                    && self.marks().contains(contacts[i].second),
    {
        let mut contacts: Vec<Contact> = Vec::new();
        let mut i: usize = 0;
        while i < collisions.len()
            invariant
                i <= collisions.len(),
                contacts@ == spec_contacts_of(collisions@.take(i as int), self.marks_by_handle()),
                forall|k: int|
                    0 <= k < contacts.len() ==> self.marks().contains(
                        (#[trigger] contacts[k]).first,
                    ) && self.marks().contains(contacts[k].second),
            decreases collisions.len() - i,
        {
            proof {
                assert(collisions@.take(i + 1).drop_last() =~= collisions@.take(i as int));
            }
            match &collisions[i] {
                Collision::Started(first, second) => {
                    match (mark_of(&self.physics, *first), mark_of(&self.physics, *second)) {
                        (Some(first_mark), Some(second_mark)) => {
                            contacts.push(Contact { first: first_mark, second: second_mark });
                        },
                        _ => {},
                    }
                },
                Collision::Stopped(_, _) => {},
            }
            i += 1;
        }
        proof {
            assert(collisions@.take(i as int) =~= collisions@);
        }
        contacts
    }

    /// Gives the waiting pushes to their bodies, oldest first, then
    /// advances the world by one timestep under constant gravity, and
    /// returns, in the order in which they were raised, the contacts
    /// that began during it.
    ///
    /// Which collisions a step raises is for the physics engine to
    /// say.  Whatever they are, the result is the contacts that
    /// [`World::contacts_of`] reads from them; every mark in a contact
    /// is the mark of a collider of the world; and no body or collider
    /// comes or goes.
    pub fn step(&mut self) -> (contacts: Vec<Contact>)
        requires
            old(self).wf(),
        ensures
            final(self).wf(),
            final(self).driven() == old(self).pending(),
            final(self).pending() == Seq::<Push>::empty(),
            final(self).raised() == contacts@,
            final(self).steps() == (if old(self).steps() < u64::MAX {
                (old(self).steps() + 1) as u64
            } else {
                old(self).steps()
            }),
            final(self).marks() == old(self).marks(),
            final(self).fixtures() == old(self).fixtures(),
            final(self).bodies() == old(self).bodies(),
            final(self).ball_handle() == old(self).ball_handle(),
            exists|collisions: Seq<Collision>|
                contacts@ == #[trigger] spec_contacts_of(
                    collisions,
                    final(self).marks_by_handle(),
                ),
            forall|i: int|
                0 <= i < contacts.len() ==> final(self).marks().contains(
                    (#[trigger] contacts[i]).first,
                ) && final(self).marks().contains(contacts[i].second),
    {
        let mut given: Vec<Push> = Vec::new();
        let mut k: usize = 0;
        while k < self.pending.len()
            invariant
                k <= self.pending.len(),
                self.wf(),
                self.pending() == old(self).pending(),
                self.steps() == old(self).steps(),
                given@ == self.pending().take(k as int),
                self.marks() == old(self).marks(),
                self.fixtures() == old(self).fixtures(),
                self.places() == old(self).places(),
                self.ball_handle() == old(self).ball_handle(),
            decreases self.pending.len() - k,
        {
            let push = self.pending[k];
            push_body(&mut self.physics, push.body, push.impulse);
            given.push(push);
            proof {
                assert(given@ =~= self.pending().take(k + 1));
            }
            k += 1;
        }
        proof {
            assert(given@ =~= old(self).pending());
        }
        self.driven = given;
        self.pending = Vec::new();
        let events = advance(&mut self.physics, World::gravity());
        let mut collisions: Vec<Collision> = Vec::new();
        let mut i: usize = 0;
        while i < events.len()
            invariant
                i <= events.len(),
                self.wf(),
                self.driven() == old(self).pending(),
                self.pending() == Seq::<Push>::empty(),
                self.steps() == old(self).steps(),
                self.marks() == old(self).marks(),
                self.fixtures() == old(self).fixtures(),
                self.bodies() == old(self).bodies(),
                self.ball_handle() == old(self).ball_handle(),
            decreases events.len() - i,
        {
            collisions.push(collision_of(&events[i]));
            i += 1;
        }
        let contacts = self.contacts_of(&collisions);
        proof {
            assert(contacts@ == spec_contacts_of(collisions@, self.marks_by_handle()));
        }
        self.raised = copy_of(&contacts);
        if self.steps < u64::MAX {
            self.steps = self.steps + 1;
        }
        proof {
            assert(contacts@ == spec_contacts_of(collisions@, self.marks_by_handle()));
        }
        contacts
    }

    /// The number of steps taken.
    pub fn steps_taken(&self) -> (steps: u64)
        ensures
            steps == self.steps(),
    {
        self.steps
    }

    /// The contacts that began during the last step.
    pub fn last_contacts(&self) -> (contacts: Vec<Contact>)
        ensures
            contacts@ == self.raised(),
    {
        copy_of(&self.raised)
    }
}

} // verus!
