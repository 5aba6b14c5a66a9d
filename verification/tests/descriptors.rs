use rapier3d::dynamics::RigidBodyHandle;
use rapier3d::geometry::ColliderHandle;
use rapier3d::pipeline::ActiveEvents;
use rapier_c::descriptors::{
    active_events_of, active_events_plan, axis_from_i32, body_kind_from_i32, collider_parent, flagged,
    joint_plan, query_filter_plan,
    character_query_plan, shape_plan, unpack_groups, vehicle_query_plan, Axis, BodyKind, GroupBits,
    GroupTestMode, JointKind,
    MotorKind, ShapePlan,
};
use rapier_c::handles::RPR_INVALID;

#[test]
fn body_kinds_decode_with_dynamic_default() {
    assert_eq!(body_kind_from_i32(0), BodyKind::Dynamic);
    assert_eq!(body_kind_from_i32(1), BodyKind::Fixed);
    assert_eq!(body_kind_from_i32(2), BodyKind::KinematicPositionBased);
    assert_eq!(body_kind_from_i32(3), BodyKind::KinematicVelocityBased);
    assert_eq!(body_kind_from_i32(4), BodyKind::Dynamic);
    assert_eq!(body_kind_from_i32(-1), BodyKind::Dynamic);
}

#[test]
fn axes_decode_with_linx_default() {
    assert_eq!(axis_from_i32(0), Axis::LinX);
    assert_eq!(axis_from_i32(1), Axis::LinY);
    assert_eq!(axis_from_i32(2), Axis::LinZ);
    assert_eq!(axis_from_i32(3), Axis::AngX);
    assert_eq!(axis_from_i32(4), Axis::AngY);
    assert_eq!(axis_from_i32(5), Axis::AngZ);
    assert_eq!(axis_from_i32(6), Axis::LinX);
    assert_eq!(axis_from_i32(i32::MIN), Axis::LinX);
}

#[test]
fn joint_plans_decode() {
    let p = joint_plan(0, 1, 1, 1);
    assert_eq!(p.kind, JointKind::Revolute);
    assert_eq!(p.free_axis, Axis::AngX);
    assert!(p.enable_contacts);
    assert!(p.limits);
    assert_eq!(p.motor, MotorKind::Position);

    let p = joint_plan(1, 0, 0, 0);
    assert_eq!(p.kind, JointKind::Fixed);
    assert_eq!(p.free_axis, Axis::LinX);
    assert!(!p.enable_contacts);
    assert!(!p.limits);
    assert_eq!(p.motor, MotorKind::NoMotor);

    assert_eq!(joint_plan(2, 0, 0, 2).kind, JointKind::Prismatic);
    assert_eq!(joint_plan(2, 0, 0, 2).motor, MotorKind::Velocity);
    assert_eq!(joint_plan(3, 0, 0, 3).kind, JointKind::Spring);
    assert_eq!(joint_plan(3, 0, 0, 3).motor, MotorKind::NoMotor);
    assert_eq!(joint_plan(4, 0, 0, 0).kind, JointKind::Rope);
    assert_eq!(joint_plan(5, 0, 0, 0).kind, JointKind::Spherical);
    assert_eq!(joint_plan(5, 0, 0, 0).free_axis, Axis::LinX);
    assert_eq!(joint_plan(99, 0, 0, 0).kind, JointKind::Fixed);
}

#[test]
fn shape_plans_decode() {
    assert_eq!(shape_plan(0, false, false, 0, 0), Some(ShapePlan::Ball));
    assert_eq!(shape_plan(1, false, false, 0, 0), Some(ShapePlan::Cuboid));
    assert_eq!(shape_plan(2, false, false, 0, 0), Some(ShapePlan::CapsuleY));
    assert_eq!(
        shape_plan(3, true, true, 4, 7),
        Some(ShapePlan::TriMesh { vertex_count: 4, triangle_count: 2 })
    );
    assert_eq!(shape_plan(4, false, false, 0, 0), Some(ShapePlan::Cylinder));
    assert_eq!(shape_plan(5, false, false, 0, 0), Some(ShapePlan::Cone));
    assert_eq!(shape_plan(6, false, false, 0, 0), Some(ShapePlan::RoundCuboid));
    assert_eq!(shape_plan(7, true, false, 5, 0), Some(ShapePlan::ConvexHull { point_count: 5 }));
}

#[test]
fn shape_plans_refuse_unknown_codes_and_missing_arrays() {
    assert_eq!(shape_plan(8, true, true, 3, 3), None);
    assert_eq!(shape_plan(-1, true, true, 3, 3), None);
    assert_eq!(shape_plan(3, false, true, 3, 3), None);
    assert_eq!(shape_plan(3, true, false, 3, 3), None);
    assert_eq!(shape_plan(7, false, true, 3, 0), None);
}

#[test]
fn presence_flags_select_values() {
    assert_eq!(flagged(0, 2.5f32), None);
    assert_eq!(flagged(1, 2.5f32), Some(2.5f32));
    assert_eq!(flagged(-7, 3u32), Some(3u32));
}

#[test]
fn collider_parents_decode() {
    assert_eq!(collider_parent(RPR_INVALID, false), Some(None));
    assert_eq!(collider_parent(RPR_INVALID, true), Some(None));
    assert_eq!(collider_parent(0, true), Some(Some(RigidBodyHandle::from_raw_parts(0, 0))));
    assert_eq!(collider_parent((3u64 << 32) | 1, true), Some(Some(RigidBodyHandle::from_raw_parts(3, 1))));
}

#[test]
fn stale_parents_refuse_the_collider() {
    assert_eq!(collider_parent(0, false), None);
    assert_eq!(collider_parent((3u64 << 32) | 1, false), None);
}

#[test]
fn active_events_keep_only_rapier_flags() {
    assert_eq!(active_events_of(0), ActiveEvents::empty());
    assert_eq!(active_events_of(1), ActiveEvents::COLLISION_EVENTS);
    assert_eq!(active_events_of(2), ActiveEvents::CONTACT_FORCE_EVENTS);
    assert_eq!(active_events_of(0xffff_ffff), ActiveEvents::COLLISION_EVENTS | ActiveEvents::CONTACT_FORCE_EVENTS);
    assert_eq!(active_events_of(0b100), ActiveEvents::empty());
    assert_eq!(active_events_plan(0, 3), None);
    assert_eq!(active_events_plan(1, 5), Some(ActiveEvents::COLLISION_EVENTS));
}

#[test]
fn groups_unpack_into_halves() {
    assert_eq!(unpack_groups(0x0003_0005), GroupBits { memberships: 3, filter: 5, test_mode: GroupTestMode::And });
    assert_eq!(unpack_groups(0xffff_ffff), GroupBits { memberships: 0xffff, filter: 0xffff, test_mode: GroupTestMode::And });
    assert_eq!(unpack_groups(0), GroupBits { memberships: 0, filter: 0, test_mode: GroupTestMode::And });
    let (m, f) = (0x1234u32, 0xabcdu32);
    assert_eq!(unpack_groups((m << 16) | f), GroupBits { memberships: m, filter: f, test_mode: GroupTestMode::And });
}

#[test]
fn query_filters_decode() {
    let p = query_filter_plan(0x0001_0002, 1, (4u64 << 32) | 2, 1);
    assert_eq!(p.groups, Some(GroupBits { memberships: 1, filter: 2, test_mode: GroupTestMode::And }));
    assert_eq!(p.exclude_collider, Some(ColliderHandle::from_raw_parts(4, 2)));
    let p = query_filter_plan(0x0001_0002, 0, 5, 0);
    assert_eq!(p.groups, None);
    assert_eq!(p.exclude_collider, None);
}

#[test]
fn vehicle_rays_always_exclude_the_chassis() {
    let chassis = RigidBodyHandle::from_raw_parts(8, 2);
    let p = vehicle_query_plan(chassis, 0x00ff_0001, 1);
    assert_eq!(p.exclude_body, chassis);
    assert_eq!(p.groups, Some(GroupBits { memberships: 0xff, filter: 1, test_mode: GroupTestMode::And }));
    let p = vehicle_query_plan(chassis, 0x00ff_0001, 0);
    assert_eq!(p.exclude_body, chassis);
    assert_eq!(p.groups, None);
}

#[test]
fn groups_are_tested_in_and_mode() {
    assert_eq!(unpack_groups(0x0003_0005).test_mode, GroupTestMode::And);
    assert_eq!(query_filter_plan(7, 1, 0, 0).groups.unwrap().test_mode, GroupTestMode::And);
}

#[test]
fn character_queries_leave_out_the_own_collider() {
    let p = character_query_plan((6u64 << 32) | 2);
    assert_eq!(p.exclude_collider, ColliderHandle::from_raw_parts(6, 2));
}
