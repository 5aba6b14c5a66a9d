//! How the C side is answered: found/not-found codes, handles or the invalid value,
//! counts as `u32`, and flags as 0/1.

use crate::handles::{co_to_u64, packs_body, packs_collider, rb_to_u64, RPR_INVALID};
use rapier3d::dynamics::RigidBodyHandle;
use rapier3d::geometry::ColliderHandle;
use vstd::prelude::*;

verus! {

/// The answer to a scene query (ray cast or point projection): `code` 1 with the packed
/// collider that was hit and the hit's data, or `code` 0 with nothing.
pub struct QueryAnswer<T> {
    pub code: i32,
    pub collider: u64,
    pub hit: Option<T>,
}

/// Answers a scene query from what rapier found: the collider and the hit's data.
pub fn query_answer<T>(found: Option<(ColliderHandle, T)>) -> (a: QueryAnswer<T>)
    ensures
        match found {
            Some((h, t)) => a.code == 1 && packs_collider(a.collider, h) && a.hit == Some(t),
            None => a.code == 0 && a.collider == RPR_INVALID && a.hit is None,
        },
{
    match found {
        Some((h, t)) => QueryAnswer { code: 1, collider: co_to_u64(h), hit: Some(t) },
        None => QueryAnswer { code: 0, collider: RPR_INVALID, hit: None },
    }
}

/// The packed handle of the `i`-th collider of a body (`colliders` are the body's
/// colliders, or none when the body does not exist), or the invalid value when there is
/// no `i`-th one.
pub fn collider_at(colliders: Option<&[ColliderHandle]>, i: u32) -> (v: u64)
    ensures
        match colliders {
            Some(cs) => if (i as int) < cs@.len() {
                packs_collider(v, cs@[i as int])
            } else {
                v == RPR_INVALID
            },
            None => v == RPR_INVALID,
        },
{
    match colliders {
        Some(cs) => {
            let k = i as usize;
            if k < cs.len() {
                co_to_u64(cs[k])
            } else {
                RPR_INVALID
            }
        },
        None => RPR_INVALID,
    }
}

/// The packed handle of a collider's parent body, or the invalid value when it has none
/// (or the collider does not exist).
pub fn parent_or_invalid(parent: Option<RigidBodyHandle>) -> (v: u64)
    ensures
        match parent {
            Some(h) => packs_body(v, h),
            None => v == RPR_INVALID,
        },
{
    match parent {
        Some(h) => rb_to_u64(h),
        None => RPR_INVALID,
    }
}

/// The answer to a collider creation: the packed handle of the collider inserted, or
/// the invalid value when no collider was made (an unknown shape code, a missing array,
/// a mesh or point cloud that rapier refused, or a stale parent).
pub fn collider_or_invalid(created: Option<ColliderHandle>) -> (v: u64)
    ensures
        match created {
            Some(h) => packs_collider(v, h),
            None => v == RPR_INVALID,
        },
{
    match created {
        Some(h) => co_to_u64(h),
        None => RPR_INVALID,
    }
}

/// The 0-based position of wheel `i` on a vehicle with `wheel_count` wheels, if it has
/// such a wheel.
pub fn wheel_slot(i: u32, wheel_count: usize) -> (r: Option<usize>)
    ensures
        r == (if (i as int) < wheel_count { Some(i as usize) } else { None }),
{
    let k = i as usize;
    if k < wheel_count {
        Some(k)
    } else {
        None
    }
}

/// A flag as the C side reads it: 1 for true, 0 for false or for an object that does not
/// exist.
pub fn flag_or_zero(flag: Option<bool>) -> (r: i32)
    ensures
        r == (if flag == Some(true) { 1i32 } else { 0i32 }),
{
    match flag {
        Some(true) => 1,
        _ => 0,
    }
}

/// A count as the C side reads it (modulo 2^32), or 0 for an object that does not exist.
pub fn count_or_zero(count: Option<usize>) -> (r: u32)
    ensures
        r == (match count {
            Some(n) => n as u32,
            None => 0u32,
        }),
{
    match count {
        Some(n) => n as u32,
        None => 0,
    }
}

/// The index of the wheel just added to a vehicle that now has `wheel_count` wheels
/// (counted modulo 2^32, minus one, wrapping), or 0 when there was no such vehicle.
pub fn added_wheel_index(wheel_count: Option<usize>) -> (r: u32)
    ensures
        r == (match wheel_count {
            Some(n) => if n as u32 == 0 { u32::MAX } else { (n as u32 - 1) as u32 },
            None => 0u32,
        }),
{
    match wheel_count {
        Some(n) => (n as u32).wrapping_sub(1),
        None => 0,
    }
}

/// The rapier version this interface was built against, NUL-terminated for the C side.
pub fn rpr_version() -> (s: &'static str)
    ensures
        s@ == seq!['0', '.', '3', '4', '.', '0', '\0'],
{
    let s = "0.34.0\0";
    proof {
        reveal_strlit("0.34.0\0");
    }
    s
}

} // verus!
