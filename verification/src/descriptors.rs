//! Decoding of the integer-coded fields through which the C side describes rigid bodies,
//! colliders, impulse joints and query filters. Every code the C side may send is
//! decoded; codes without a meaning of their own fall back as documented per field.

use crate::handles::{body_handle_of, co_from_u64, collider_handle_of, rb_from_u64, RPR_INVALID};
use rapier3d::dynamics::RigidBodyHandle;
use rapier3d::geometry::ColliderHandle;
use rapier3d::pipeline::ActiveEvents;
use vstd::prelude::*;

verus! {

/// `Some(value)` when the C-side presence flag `has` is set (non-zero), else `None`.
pub fn flagged<T>(has: i32, value: T) -> (r: Option<T>)
    ensures
        r == (if has != 0 { Some(value) } else { None }),
{
    if has != 0 {
        Some(value)
    } else {
        None
    }
}

/// The rigid-body types the C side can ask for.
#[derive(Clone, Copy, Debug, PartialEq, Eq, Structural)]
pub enum BodyKind {
    Dynamic,
    Fixed,
    KinematicPositionBased,
    KinematicVelocityBased,
}

/// `body_type` code: 1 fixed, 2 kinematic (position-based), 3 kinematic (velocity-based),
/// anything else dynamic.
pub open spec fn body_kind_of(body_type: i32) -> BodyKind {
    if body_type == 1 {
        BodyKind::Fixed
    } else if body_type == 2 {
        BodyKind::KinematicPositionBased
    } else if body_type == 3 {
        BodyKind::KinematicVelocityBased
    } else {
        BodyKind::Dynamic
    }
}

/// Decodes a `body_type` code.
pub fn body_kind_from_i32(body_type: i32) -> (k: BodyKind)
    ensures
        k == body_kind_of(body_type),
        body_type == 1 ==> k == BodyKind::Fixed,
        body_type == 2 ==> k == BodyKind::KinematicPositionBased,
        body_type == 3 ==> k == BodyKind::KinematicVelocityBased,
        !(1 <= body_type <= 3) ==> k == BodyKind::Dynamic,
{
    match body_type {
        1 => BodyKind::Fixed,
        2 => BodyKind::KinematicPositionBased,
        3 => BodyKind::KinematicVelocityBased,
        _ => BodyKind::Dynamic,
    }
}

/// The six degrees of freedom of a joint.
#[derive(Clone, Copy, Debug, PartialEq, Eq, Structural)]
pub enum Axis {
    LinX,
    LinY,
    LinZ,
    AngX,
    AngY,
    AngZ,
}

/// Axis code: 1 `LinY`, 2 `LinZ`, 3 `AngX`, 4 `AngY`, 5 `AngZ`, anything else `LinX`.
pub open spec fn axis_of(a: i32) -> Axis {
    if a == 1 {
        Axis::LinY
    } else if a == 2 {
        Axis::LinZ
    } else if a == 3 {
        Axis::AngX
    } else if a == 4 {
        Axis::AngY
    } else if a == 5 {
        Axis::AngZ
    } else {
        Axis::LinX
    }
}

/// Decodes an axis code.
pub fn axis_from_i32(a: i32) -> (r: Axis)
    ensures
        r == axis_of(a),
        a == 1 ==> r == Axis::LinY,
        a == 2 ==> r == Axis::LinZ,
        a == 3 ==> r == Axis::AngX,
        a == 4 ==> r == Axis::AngY,
        a == 5 ==> r == Axis::AngZ,
        !(1 <= a <= 5) ==> r == Axis::LinX,
{
    match a {
        1 => Axis::LinY,
        2 => Axis::LinZ,
        3 => Axis::AngX,
        4 => Axis::AngY,
        5 => Axis::AngZ,
        _ => Axis::LinX,
    }
}

/// The impulse-joint types the C side can ask for.
#[derive(Clone, Copy, Debug, PartialEq, Eq, Structural)]
pub enum JointKind {
    Revolute,
    Fixed,
    Prismatic,
    Spring,
    Rope,
    Spherical,
}

/// `joint_type` code: 0 revolute, 2 prismatic, 3 spring, 4 rope, 5 spherical, anything
/// else fixed.
pub open spec fn joint_kind_of(joint_type: i32) -> JointKind {
    if joint_type == 0 {
        JointKind::Revolute
    } else if joint_type == 2 {
        JointKind::Prismatic
    } else if joint_type == 3 {
        JointKind::Spring
    } else if joint_type == 4 {
        JointKind::Rope
    } else if joint_type == 5 {
        JointKind::Spherical
    } else {
        JointKind::Fixed
    }
}

/// The motor a joint descriptor asks for on the joint's free axis.
#[derive(Clone, Copy, Debug, PartialEq, Eq, Structural)]
pub enum MotorKind {
    NoMotor,
    Position,
    Velocity,
}

/// `motor_kind` code: 1 position motor, 2 velocity motor, anything else none.
pub open spec fn motor_kind_of(motor_kind: i32) -> MotorKind {
    if motor_kind == 1 {
        MotorKind::Position
    } else if motor_kind == 2 {
        MotorKind::Velocity
    } else {
        MotorKind::NoMotor
    }
}

/// What a joint descriptor asks for, beside its numbers.
#[derive(Clone, Copy, Debug, PartialEq, Eq, Structural)]
pub struct JointPlan {
    /// The joint type.
    pub kind: JointKind,
    /// The axis that limits and the motor act on: rotation about local X for a revolute
    /// joint, translation along local X for every other type.
    pub free_axis: Axis,
    /// Whether contacts between the two bodies are to be switched on (a zero flag leaves
    /// the joint's default as it is).
    pub enable_contacts: bool,
    /// Whether the free axis gets the descriptor's limits.
    pub limits: bool,
    /// The motor on the free axis.
    pub motor: MotorKind,
}

/// Decodes the integer fields of a joint descriptor.
pub fn joint_plan(joint_type: i32, contacts_enabled: i32, has_limits: i32, motor_kind: i32) -> (p: JointPlan)
    ensures
        p.kind == joint_kind_of(joint_type),
        joint_type == 0 ==> p.kind == JointKind::Revolute,
        joint_type == 2 ==> p.kind == JointKind::Prismatic,
        joint_type == 3 ==> p.kind == JointKind::Spring,
        joint_type == 4 ==> p.kind == JointKind::Rope,
        joint_type == 5 ==> p.kind == JointKind::Spherical,
        !(0 <= joint_type <= 5) || joint_type == 1 ==> p.kind == JointKind::Fixed,
        motor_kind == 1 ==> p.motor == MotorKind::Position,
        motor_kind == 2 ==> p.motor == MotorKind::Velocity,
        !(1 <= motor_kind <= 2) ==> p.motor == MotorKind::NoMotor,
        p.free_axis == (if joint_type == 0 { Axis::AngX } else { Axis::LinX }),
        p.enable_contacts == (contacts_enabled != 0),
        p.limits == (has_limits != 0),
        p.motor == motor_kind_of(motor_kind),
{
    let kind = match joint_type {
        0 => JointKind::Revolute,
        2 => JointKind::Prismatic,
        3 => JointKind::Spring,
        4 => JointKind::Rope,
        5 => JointKind::Spherical,
        _ => JointKind::Fixed,
    };
    let free_axis = if joint_type == 0 { Axis::AngX } else { Axis::LinX };
    let motor = match motor_kind {
        1 => MotorKind::Position,
        2 => MotorKind::Velocity,
        _ => MotorKind::NoMotor,
    };
    JointPlan { kind, free_axis, enable_contacts: contacts_enabled != 0, limits: has_limits != 0, motor }
}

/// The collider shape a descriptor asks for, with the counts a mesh or point cloud is
/// read with.
#[derive(Clone, Copy, Debug, PartialEq, Eq, Structural)]
pub enum ShapePlan {
    Ball,
    Cuboid,
    CapsuleY,
    /// `vertex_count` points (3 scalars each) and `triangle_count` triangles (3 indices
    /// each); trailing indices that do not fill a triangle are not read.
    TriMesh { vertex_count: usize, triangle_count: usize },
    Cylinder,
    Cone,
    RoundCuboid,
    /// The convex hull of `point_count` points (3 scalars each).
    ConvexHull { point_count: usize },
}

/// `shape_type` code: 0 ball, 1 cuboid, 2 capsule along Y, 3 triangle mesh (needs both the
/// vertex and the index arrays), 4 cylinder, 5 cone, 6 round cuboid, 7 convex hull (needs
/// the vertex array); anything else, or a missing array, asks for no shape.
pub open spec fn shape_plan_of(
    shape_type: i32,
    has_vertices: bool,
    has_indices: bool,
    vertex_count: u32,
    index_count: u32,
) -> Option<ShapePlan> {
    if shape_type == 0 {
        Some(ShapePlan::Ball)
    } else if shape_type == 1 {
        Some(ShapePlan::Cuboid)
    } else if shape_type == 2 {
        Some(ShapePlan::CapsuleY)
    } else if shape_type == 3 {
        if has_vertices && has_indices {
            Some(
                ShapePlan::TriMesh {
                    vertex_count: vertex_count as usize,
                    triangle_count: (index_count / 3) as usize,
                },
            )
        } else {
            None
        }
    } else if shape_type == 4 {
        Some(ShapePlan::Cylinder)
    } else if shape_type == 5 {
        Some(ShapePlan::Cone)
    } else if shape_type == 6 {
        Some(ShapePlan::RoundCuboid)
    } else if shape_type == 7 {
        if has_vertices {
            Some(ShapePlan::ConvexHull { point_count: vertex_count as usize })
        } else {
            None
        }
    } else {
        None
    }
}

/// Law: a triangle mesh reads every complete triangle of its index array and no more
/// (`3 * triangles <= index_count < 3 * triangles + 3`), all its vertices, and is
/// planned whenever both arrays are present; a convex hull reads all its points and
/// needs only the vertex array, whether or not an index array is also given.
pub proof fn lemma_shape_plan_counts(vertex_count: u32, index_count: u32, has_indices: bool)
    ensures
        ({
            let p = shape_plan_of(3, true, true, vertex_count, index_count);
            &&& p matches Some(ShapePlan::TriMesh { vertex_count: v, triangle_count: t })
            &&& v == vertex_count as usize
            &&& 3 * (t as int) <= index_count as int
            &&& (index_count as int) < 3 * (t as int) + 3
        }),
        shape_plan_of(7, true, has_indices, vertex_count, index_count)
            == Some(ShapePlan::ConvexHull { point_count: vertex_count as usize }),
{
}

/// Decodes the shape fields of a collider descriptor; `has_vertices` and `has_indices`
/// tell whether the vertex and index arrays are present.
pub fn shape_plan(
    shape_type: i32,
    has_vertices: bool,
    has_indices: bool,
    vertex_count: u32,
    index_count: u32,
) -> (p: Option<ShapePlan>)
    ensures
        p == shape_plan_of(shape_type, has_vertices, has_indices, vertex_count, index_count),
        shape_type == 0 ==> p == Some(ShapePlan::Ball),
        shape_type == 1 ==> p == Some(ShapePlan::Cuboid),
        shape_type == 2 ==> p == Some(ShapePlan::CapsuleY),
        shape_type == 3 && has_vertices && has_indices ==> p == Some(
            ShapePlan::TriMesh {
                vertex_count: vertex_count as usize,
                triangle_count: (index_count / 3) as usize,
            },
        ),
        shape_type == 3 && !(has_vertices && has_indices) ==> p is None,
        shape_type == 4 ==> p == Some(ShapePlan::Cylinder),
        shape_type == 5 ==> p == Some(ShapePlan::Cone),
        shape_type == 6 ==> p == Some(ShapePlan::RoundCuboid),
        shape_type == 7 && has_vertices ==> p == Some(ShapePlan::ConvexHull { point_count: vertex_count as usize }),
        shape_type == 7 && !has_vertices ==> p is None,
        !(0 <= shape_type <= 7) ==> p is None,
{
    match shape_type {
        0 => Some(ShapePlan::Ball),
        1 => Some(ShapePlan::Cuboid),
        2 => Some(ShapePlan::CapsuleY),
        3 => {
            if has_vertices && has_indices {
                Some(
                    ShapePlan::TriMesh {
                        vertex_count: vertex_count as usize,
                        triangle_count: (index_count / 3) as usize,
                    },
                )
            } else {
                None
            }
        },
        4 => Some(ShapePlan::Cylinder),
        5 => Some(ShapePlan::Cone),
        6 => Some(ShapePlan::RoundCuboid),
        7 => {
            if has_vertices {
                Some(ShapePlan::ConvexHull { point_count: vertex_count as usize })
            } else {
                None
            }
        },
        _ => None,
    }
}

/// The parent that a new collider is inserted with, given the `parent` argument and
/// whether the body it denotes is alive (`parent_live`, read from the world):
/// `Some(None)` to insert it without a parent (the invalid handle), `Some(Some(h))` to
/// attach it to the live body `h`, and `None` to create no collider at all when the
/// parent is stale or was never issued, so that a bad handle degrades to the invalid
/// answer instead of aborting inside rapier.
pub fn collider_parent(parent: u64, parent_live: bool) -> (r: Option<Option<RigidBodyHandle>>)
    ensures
        r == (if parent == RPR_INVALID {
            Some(None)
        } else if parent_live {
            Some(Some(body_handle_of(parent)))
        } else {
            None
        }),
{
    if parent == RPR_INVALID {
        Some(None)
    } else if parent_live {
        Some(Some(rb_from_u64(parent)))
    } else {
        None
    }
}

#[verifier::external_type_specification]
#[verifier::external_body]
pub struct ExActiveEvents(ActiveEvents);

/// What `ActiveEvents::from_bits_truncate(bits)` returns.
pub uninterp spec fn active_events_from_bits(bits: u32) -> ActiveEvents;

/// Calls `ActiveEvents::from_bits_truncate`; its result is named
/// `active_events_from_bits`. `ActiveEvents` defines exactly two flags,
/// `COLLISION_EVENTS = 0b01` and `CONTACT_FORCE_EVENTS = 0b10`, and truncation drops
/// every other bit, so the result is also that of `bits & 0b11`.
#[verifier::external_body]
fn active_events_new(bits: u32) -> (e: ActiveEvents)
    ensures
        e == active_events_from_bits(bits),
        e == active_events_from_bits(bits & 0b11u32),
{
    ActiveEvents::from_bits_truncate(bits)
}

/// The events a collider is to report for the C side's `bits`: the flags among them that
/// rapier defines (collision events, bit 0; contact-force events, bit 1); other bits are
/// dropped.
pub fn active_events_of(bits: u32) -> (e: ActiveEvents)
    ensures
        e == active_events_from_bits(bits & 0b11u32),
{
    active_events_new(bits)
}

/// The events a collider is to report, when the C side sets them (`has_active_events`
/// non-zero): the flags among `bits` that rapier defines (collision events, bit 0;
/// contact-force events, bit 1); other bits are dropped.
pub fn active_events_plan(has_active_events: i32, bits: u32) -> (r: Option<ActiveEvents>)
    ensures
        r == (if has_active_events != 0 { Some(active_events_from_bits(bits & 0b11u32)) } else { None }),
{
    if has_active_events != 0 {
        Some(active_events_of(bits))
    } else {
        None
    }
}

/// How two colliders' groups are tested against each other: `And` lets them interact
/// when each one's memberships meet the other's filter; `Or` when either does.
#[derive(Clone, Copy, Debug, PartialEq, Eq, Structural)]
pub enum GroupTestMode {
    And,
    Or,
}

/// The collision groups that the C side's single `u32` value (`memberships << 16 |
/// filter`) stands for: its two 16-bit halves, tested in the classic `And` mode.
#[derive(Clone, Copy, Debug, PartialEq, Eq, Structural)]
pub struct GroupBits {
    pub memberships: u32,
    pub filter: u32,
    pub test_mode: GroupTestMode,
}

/// The collision groups that a packed value stands for.
pub open spec fn groups_of(packed: u32) -> GroupBits {
    GroupBits { memberships: packed / 0x1_0000, filter: packed % 0x1_0000, test_mode: GroupTestMode::And }
}

/// The `u32` that `memberships << 16 | filter` denotes, for 16-bit halves.
pub open spec fn packed_groups(memberships: u32, filter: u32) -> u32 {
    (memberships as int * 0x1_0000 + filter as int) as u32
}

/// Law: the groups a packed value stands for are its high 16 bits as memberships and
/// its low 16 bits as filter (which rebuild it), tested in `And` mode.
pub proof fn lemma_groups_layout(packed: u32)
    ensures
        groups_of(packed).memberships < 0x1_0000,
        groups_of(packed).filter < 0x1_0000,
        groups_of(packed).memberships as int * 0x1_0000 + groups_of(packed).filter as int == packed as int,
        groups_of(packed).test_mode == GroupTestMode::And,
{
    assert(packed as int == (packed / 0x1_0000) as int * 0x1_0000 + (packed % 0x1_0000) as int) by (nonlinear_arith);
}

/// Splits a collision-groups value into its memberships (high half) and filter (low
/// half), to be tested in `And` mode.
pub fn unpack_groups(packed: u32) -> (g: GroupBits)
    ensures
        g == groups_of(packed),
        g.memberships == packed / 0x1_0000,
        g.filter == packed % 0x1_0000,
        g.test_mode == GroupTestMode::And,
{
    let m: u32 = packed >> 16u32;
    let f: u32 = packed & 0xffffu32;
    assert(m == packed / 0x1_0000 && f == packed % 0x1_0000) by (bit_vector)
        requires m == packed >> 16u32, f == packed & 0xffffu32;
    GroupBits { memberships: m, filter: f, test_mode: GroupTestMode::And }
}

/// Law: a value packed from two 16-bit halves unpacks to those halves, and every value
/// is the packing of its own halves.
pub proof fn lemma_groups_round_trip(memberships: u32, filter: u32, packed: u32)
    requires
        memberships < 0x1_0000,
        filter < 0x1_0000,
    ensures
        packed_groups(memberships, filter) / 0x1_0000 == memberships,
        packed_groups(memberships, filter) % 0x1_0000 == filter,
        packed_groups(packed / 0x1_0000, packed % 0x1_0000) == packed,
{
    let x = memberships as int * 0x1_0000 + filter as int;
    assert(x / 0x1_0000 == memberships as int && x % 0x1_0000 == filter as int) by (nonlinear_arith)
        requires x == memberships as int * 0x1_0000 + filter as int, 0 <= filter < 0x1_0000;
    assert(packed as int == (packed / 0x1_0000) as int * 0x1_0000 + (packed % 0x1_0000) as int) by (nonlinear_arith);
}

/// What a scene query is filtered by: optionally collision groups, optionally one
/// collider to leave out.
pub struct QueryFilterPlan {
    pub groups: Option<GroupBits>,
    pub exclude_collider: Option<ColliderHandle>,
}

/// Decodes the filter arguments of a scene query.
pub fn query_filter_plan(filter_groups: u32, has_filter_groups: i32, exclude_collider: u64, has_exclude: i32) -> (p: QueryFilterPlan)
    ensures
        p.groups == (if has_filter_groups != 0 {
            Some(groups_of(filter_groups))
        } else {
            None
        }),
        p.exclude_collider == (if has_exclude != 0 { Some(collider_handle_of(exclude_collider)) } else { None }),
{
    let groups = if has_filter_groups != 0 { Some(unpack_groups(filter_groups)) } else { None };
    let exclude = if has_exclude != 0 { Some(co_from_u64(exclude_collider)) } else { None };
    QueryFilterPlan { groups, exclude_collider: exclude }
}

/// What the wheel rays of a vehicle are filtered by: they always leave out the vehicle's
/// own chassis body (the rays start inside the chassis collider, which they would
/// otherwise hit at once), and optionally keep to collision groups.
pub struct VehicleQueryPlan {
    pub exclude_body: RigidBodyHandle,
    pub groups: Option<GroupBits>,
}

/// Decodes the filter arguments of a vehicle update for a vehicle on body `chassis`.
pub fn vehicle_query_plan(chassis: RigidBodyHandle, filter_groups: u32, has_filter_groups: i32) -> (p: VehicleQueryPlan)
    ensures
        p.exclude_body == chassis,
        p.groups == (if has_filter_groups != 0 {
            Some(groups_of(filter_groups))
        } else {
            None
        }),
{
    let groups = if has_filter_groups != 0 { Some(unpack_groups(filter_groups)) } else { None };
    VehicleQueryPlan { exclude_body: chassis, groups }
}

/// What a character's movement query is filtered by: it leaves out the character's own
/// collider, which would otherwise block every movement by overlapping the moved shape.
pub struct CharacterQueryPlan {
    pub exclude_collider: ColliderHandle,
}

/// Decodes the collider argument of a character movement: the collider that `collider`
/// denotes is both the shape moved and the one left out of the query.
pub fn character_query_plan(collider: u64) -> (p: CharacterQueryPlan)
    ensures
        p.exclude_collider == collider_handle_of(collider),
{
    CharacterQueryPlan { exclude_collider: co_from_u64(collider) }
}

} // verus!
