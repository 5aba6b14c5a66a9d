//! Ray-cast vehicle controllers, kept by the world and named by 1-based handles.

use crate::descriptors::{groups_of, vehicle_query_plan, VehicleQueryPlan};
use crate::handles::{body_handle_of, rb_from_u64};
use crate::registry::slot_of;
use crate::world::RprWorld;
use rapier3d::control::DynamicRayCastVehicleController;
use vstd::prelude::*;

verus! {

#[verifier::external_type_specification]
#[verifier::external_body]
pub struct ExDynamicRayCastVehicleController(DynamicRayCastVehicleController);

/// What `DynamicRayCastVehicleController::new(chassis)` returns.
pub uninterp spec fn vehicle_controller_for(chassis: rapier3d::dynamics::RigidBodyHandle) -> DynamicRayCastVehicleController;

/// What `wheels().len()` returns for a vehicle controller.
pub uninterp spec fn wheel_count(v: DynamicRayCastVehicleController) -> usize;

/// What a vehicle controller's public `chassis` field holds.
pub uninterp spec fn vehicle_chassis(v: DynamicRayCastVehicleController) -> rapier3d::dynamics::RigidBodyHandle;

/// Calls `DynamicRayCastVehicleController::new`; its result is named
/// `vehicle_controller_for`. The source builds it with an empty wheel list and with
/// `chassis` in its `chassis` field.
#[verifier::external_body]
fn vehicle_controller_new(chassis: rapier3d::dynamics::RigidBodyHandle) -> (v: DynamicRayCastVehicleController)
    ensures
        v == vehicle_controller_for(chassis),
        wheel_count(v) == 0,
        vehicle_chassis(v) == chassis,
{
    DynamicRayCastVehicleController::new(chassis)
}

/// Calls `DynamicRayCastVehicleController::wheels` and takes the length of the slice;
/// the count is named `wheel_count`.
#[verifier::external_body]
fn vehicle_wheel_count(v: &DynamicRayCastVehicleController) -> (n: usize)
    ensures
        n == wheel_count(*v),
{
    v.wheels().len()
}

/// Reads a vehicle controller's `chassis` field; the value is named `vehicle_chassis`.
#[verifier::external_body]
fn vehicle_chassis_of(v: &DynamicRayCastVehicleController) -> (h: rapier3d::dynamics::RigidBodyHandle)
    ensures
        h == vehicle_chassis(*v),
{
    v.chassis
}

/// Adds a vehicle controller on the body that `chassis` denotes, and returns its 1-based
/// handle.
pub fn rpr_world_create_vehicle_controller<P, C, M>(
    w: &mut RprWorld<P, DynamicRayCastVehicleController, C, M>,
    chassis: u64,
) -> (h: u64)
    requires
        old(w).vehicles.items().len() < usize::MAX,
    ensures
        final(w).vehicles.items() == old(w).vehicles.items().push(
            vehicle_controller_for(body_handle_of(chassis)),
        ),
        h == final(w).vehicles.items().len(),
        wheel_count(final(w).vehicles.items().last()) == 0,
        vehicle_chassis(final(w).vehicles.items().last()) == body_handle_of(chassis),
        final(w).world == old(w).world,
        final(w).characters == old(w).characters,
        final(w).pending_coll == old(w).pending_coll,
        final(w).pending_force == old(w).pending_force,
{
    let v = vehicle_controller_new(rb_from_u64(chassis));
    w.vehicles.create(v)
}

/// The number of wheels of vehicle `vc` (modulo 2^32), or 0 when `vc` names no vehicle.
pub fn rpr_vehicle_num_wheels<P, C, M>(w: &RprWorld<P, DynamicRayCastVehicleController, C, M>, vc: u64) -> (n: u32)
    ensures
        n == (match slot_of(vc, w.vehicles.items().len()) {
            Some(k) => wheel_count(w.vehicles.items()[k]) as u32,
            None => 0u32,
        }),
{
    match w.vehicles.get(vc) {
        Some(v) => vehicle_wheel_count(v) as u32,
        None => 0,
    }
}

/// What the wheel rays of vehicle `vc` are filtered by in an update, or `None` when `vc`
/// names no vehicle: the vehicle's own chassis is always left out, and the collision
/// groups apply when `has_filter_groups` is set.
pub fn vehicle_update_plan<P, C, M>(
    w: &RprWorld<P, DynamicRayCastVehicleController, C, M>,
    vc: u64,
    filter_groups: u32,
    has_filter_groups: i32,
) -> (p: Option<VehicleQueryPlan>)
    ensures
        match slot_of(vc, w.vehicles.items().len()) {
            Some(k) => p is Some
                && p->0.exclude_body == vehicle_chassis(w.vehicles.items()[k])
                && p->0.groups == (if has_filter_groups != 0 { Some(groups_of(filter_groups)) } else { None }),
            None => p is None,
        },
{
    match w.vehicles.get(vc) {
        Some(v) => Some(vehicle_query_plan(vehicle_chassis_of(v), filter_groups, has_filter_groups)),
        None => None,
    }
}

} // verus!
