//! Packing of rapier's generational handles into the single `u64` that crosses the C
//! interface: `index << 32 | generation`.

use rapier3d::dynamics::{ImpulseJointHandle, RigidBodyHandle};
use rapier3d::geometry::ColliderHandle;
use vstd::prelude::*;

verus! {

/// The "no handle" value. It equals rapier's own always-invalid handle
/// (index and generation both `u32::MAX`); it is not 0, because rapier's first handle
/// (index 0, generation 0) packs to 0.
pub const RPR_INVALID: u64 = 0xffff_ffff_ffff_ffffu64;

/// The value that `index << 32 | generation` denotes.
pub open spec fn packed(index: u32, generation: u32) -> u64 {
    (index as int * 0x1_0000_0000 + generation as int) as u64
}

/// The index half (high 32 bits) of a packed handle.
pub open spec fn index_part(v: u64) -> u32 {
    (v as int / 0x1_0000_0000) as u32
}

/// The generation half (low 32 bits) of a packed handle.
pub open spec fn generation_part(v: u64) -> u32 {
    (v as int % 0x1_0000_0000) as u32
}

/// Law: unpacking a packed `(index, generation)` gives back both parts.
pub proof fn lemma_unpack_of_pack(index: u32, generation: u32)
    ensures
        index_part(packed(index, generation)) == index,
        generation_part(packed(index, generation)) == generation,
{
    let x = index as int * 0x1_0000_0000 + generation as int;
    assert(0 <= x < 0x1_0000_0000_0000_0000);
    assert(x / 0x1_0000_0000 == index as int) by (nonlinear_arith)
        requires x == index as int * 0x1_0000_0000 + generation as int, 0 <= generation < 0x1_0000_0000;
    assert(x % 0x1_0000_0000 == generation as int) by (nonlinear_arith)
        requires x == index as int * 0x1_0000_0000 + generation as int, 0 <= generation < 0x1_0000_0000;
}

/// Law: packing the two halves of any `u64` gives back that `u64`, so every `u64` is
/// the packing of exactly one `(index, generation)` pair.
pub proof fn lemma_pack_of_unpack(v: u64)
    ensures
        packed(index_part(v), generation_part(v)) == v,
{
    let q = v as int / 0x1_0000_0000;
    let r = v as int % 0x1_0000_0000;
    assert(v as int == q * 0x1_0000_0000 + r && 0 <= r < 0x1_0000_0000 && 0 <= q < 0x1_0000_0000)
        by (nonlinear_arith)
        requires 0 <= v < 0x1_0000_0000_0000_0000, q == v as int / 0x1_0000_0000, r == v as int % 0x1_0000_0000;
}

/// Law: a packed handle is its index times 2^32 plus its generation, i.e. the index
/// fills the high 32 bits and the generation the low 32 bits.
pub proof fn lemma_packed_layout(index: u32, generation: u32)
    ensures
        packed(index, generation) as int == index as int * 0x1_0000_0000 + generation as int,
        packed(index, generation) / 0x1_0000_0000 == index as u64,
        packed(index, generation) % 0x1_0000_0000 == generation as u64,
{
    lemma_unpack_of_pack(index, generation);
}

/// Law: the index half of a `u64` is its quotient by 2^32 and the generation half its
/// remainder, and the two rebuild it.
pub proof fn lemma_halves_layout(v: u64)
    ensures
        index_part(v) as u64 == v / 0x1_0000_0000,
        generation_part(v) as u64 == v % 0x1_0000_0000,
        v as int == index_part(v) as int * 0x1_0000_0000 + generation_part(v) as int,
{
    lemma_pack_of_unpack(v);
}

/// Law: the invalid value is the packing of rapier's invalid handle, and differs from
/// the packing of rapier's first handle.
pub proof fn lemma_invalid_handle()
    ensures
        packed(0xffff_ffff, 0xffff_ffff) == RPR_INVALID,
        packed(0, 0) == 0,
        packed(0, 0) != RPR_INVALID,
{
}

/// `index << 32 | generation`.
pub fn pack_handle(index: u32, generation: u32) -> (v: u64)
    ensures
        v == packed(index, generation),
        v as int == index as int * 0x1_0000_0000 + generation as int,
        v / 0x1_0000_0000 == index as u64,
        v % 0x1_0000_0000 == generation as u64,
{
    let i: u64 = index as u64;
    let g: u64 = generation as u64;
    let v: u64 = (i << 32u64) | g;
    assert(v == i * 0x1_0000_0000 + g) by (bit_vector)
        requires v == (i << 32u64) | g, i < 0x1_0000_0000, g < 0x1_0000_0000;
    proof {
        lemma_unpack_of_pack(index, generation);
    }
    v
}

/// Splits a packed handle into `(index, generation)`.
pub fn unpack_handle(v: u64) -> (r: (u32, u32))
    ensures
        r.0 == index_part(v),
        r.1 == generation_part(v),
        r.0 as u64 == v / 0x1_0000_0000,
        r.1 as u64 == v % 0x1_0000_0000,
        v as int == r.0 as int * 0x1_0000_0000 + r.1 as int,
{
    let hi: u64 = v >> 32u64;
    let lo: u64 = v & 0xffff_ffffu64;
    assert(hi == v / 0x1_0000_0000 && lo == v % 0x1_0000_0000) by (bit_vector)
        requires hi == v >> 32u64, lo == v & 0xffff_ffffu64;
    proof {
        lemma_pack_of_unpack(v);
    }
    (hi as u32, lo as u32)
}


#[verifier::external_type_specification]
#[verifier::external_body]
pub struct ExRigidBodyHandle(RigidBodyHandle);

#[verifier::external_type_specification]
#[verifier::external_body]
pub struct ExColliderHandle(ColliderHandle);

#[verifier::external_type_specification]
#[verifier::external_body]
pub struct ExImpulseJointHandle(ImpulseJointHandle);

/// What `RigidBodyHandle::from_raw_parts(index, generation)` returns.
pub uninterp spec fn rigid_body_handle_from_parts(index: u32, generation: u32) -> RigidBodyHandle;

/// What `ColliderHandle::from_raw_parts(index, generation)` returns.
pub uninterp spec fn collider_handle_from_parts(index: u32, generation: u32) -> ColliderHandle;

/// What `ImpulseJointHandle::from_raw_parts(index, generation)` returns.
pub uninterp spec fn impulse_joint_handle_from_parts(index: u32, generation: u32) -> ImpulseJointHandle;

/// The rigid-body handle that a packed `u64` denotes.
pub open spec fn body_handle_of(v: u64) -> RigidBodyHandle {
    rigid_body_handle_from_parts(index_part(v), generation_part(v))
}

/// The collider handle that a packed `u64` denotes.
pub open spec fn collider_handle_of(v: u64) -> ColliderHandle {
    collider_handle_from_parts(index_part(v), generation_part(v))
}

/// The impulse-joint handle that a packed `u64` denotes.
pub open spec fn joint_handle_of(v: u64) -> ImpulseJointHandle {
    impulse_joint_handle_from_parts(index_part(v), generation_part(v))
}

/// `v` is the one `u64` that denotes the rigid-body handle `h`.
pub open spec fn packs_body(v: u64, h: RigidBodyHandle) -> bool {
    &&& body_handle_of(v) == h
    &&& forall|u: u64| #[trigger] body_handle_of(u) == h ==> u == v
}

/// `v` is the one `u64` that denotes the collider handle `h`.
pub open spec fn packs_collider(v: u64, h: ColliderHandle) -> bool {
    &&& collider_handle_of(v) == h
    &&& forall|u: u64| #[trigger] collider_handle_of(u) == h ==> u == v
}

/// `v` is the one `u64` that denotes the impulse-joint handle `h`.
pub open spec fn packs_joint(v: u64, h: ImpulseJointHandle) -> bool {
    &&& joint_handle_of(v) == h
    &&& forall|u: u64| #[trigger] joint_handle_of(u) == h ==> u == v
}

/// Law: the handle that a `u64` denotes (body, collider or joint alike) is the one
/// rapier rebuilds from that `u64`'s high 32 bits as index and low 32 bits as
/// generation.
pub proof fn lemma_handle_of_halves(v: u64)
    ensures
        body_handle_of(v) == rigid_body_handle_from_parts((v / 0x1_0000_0000) as u32, (v % 0x1_0000_0000) as u32),
        collider_handle_of(v) == collider_handle_from_parts((v / 0x1_0000_0000) as u32, (v % 0x1_0000_0000) as u32),
        joint_handle_of(v) == impulse_joint_handle_from_parts((v / 0x1_0000_0000) as u32, (v % 0x1_0000_0000) as u32),
{
    lemma_halves_layout(v);
}

/// Calls `RigidBodyHandle::from_raw_parts`; its result is named
/// `rigid_body_handle_from_parts`.
#[verifier::external_body]
fn rigid_body_handle_new(index: u32, generation: u32) -> (h: RigidBodyHandle)
    ensures
        h == rigid_body_handle_from_parts(index, generation),
{
    RigidBodyHandle::from_raw_parts(index, generation)
}

/// Calls `RigidBodyHandle::into_raw_parts`. rapier's handle holds exactly an index and a
/// generation, which `from_raw_parts` stores and `into_raw_parts` returns: so the handle is
/// the one rebuilt from the returned parts, and those are the only parts that rebuild it.
#[verifier::external_body]
fn rigid_body_handle_parts(h: RigidBodyHandle) -> (r: (u32, u32))
    ensures
        h == rigid_body_handle_from_parts(r.0, r.1),
        forall|i: u32, g: u32| #[trigger] rigid_body_handle_from_parts(i, g) == h ==> r == (i, g),
{
    h.into_raw_parts()
}

/// Calls `ColliderHandle::from_raw_parts`; its result is named
/// `collider_handle_from_parts`.
#[verifier::external_body]
fn collider_handle_new(index: u32, generation: u32) -> (h: ColliderHandle)
    ensures
        h == collider_handle_from_parts(index, generation),
{
    ColliderHandle::from_raw_parts(index, generation)
}

/// Calls `ColliderHandle::into_raw_parts`: the handle is the one rebuilt from the returned
/// parts, and those are the only parts that rebuild it.
#[verifier::external_body]
fn collider_handle_parts(h: ColliderHandle) -> (r: (u32, u32))
    ensures
        h == collider_handle_from_parts(r.0, r.1),
        forall|i: u32, g: u32| #[trigger] collider_handle_from_parts(i, g) == h ==> r == (i, g),
{
    h.into_raw_parts()
}

/// Calls `ImpulseJointHandle::from_raw_parts`; its result is named
/// `impulse_joint_handle_from_parts`.
#[verifier::external_body]
fn impulse_joint_handle_new(index: u32, generation: u32) -> (h: ImpulseJointHandle)
    ensures
        h == impulse_joint_handle_from_parts(index, generation),
{
    ImpulseJointHandle::from_raw_parts(index, generation)
}

/// Calls `ImpulseJointHandle::into_raw_parts`: the handle is the one rebuilt from the
/// returned parts, and those are the only parts that rebuild it.
#[verifier::external_body]
fn impulse_joint_handle_parts(h: ImpulseJointHandle) -> (r: (u32, u32))
    ensures
        h == impulse_joint_handle_from_parts(r.0, r.1),
        forall|i: u32, g: u32| #[trigger] impulse_joint_handle_from_parts(i, g) == h ==> r == (i, g),
{
    h.into_raw_parts()
}

/// Packs a rigid-body handle. The result is the one `u64` that denotes `h`.
pub fn rb_to_u64(h: RigidBodyHandle) -> (v: u64)
    ensures
        packs_body(v, h),
        h == rigid_body_handle_from_parts((v / 0x1_0000_0000) as u32, (v % 0x1_0000_0000) as u32),
{
    let (i, g) = rigid_body_handle_parts(h);
    let v = pack_handle(i, g);
    proof {
        lemma_unpack_of_pack(i, g);
        assert forall|u: u64| #[trigger] body_handle_of(u) == h implies u == v by {
            lemma_pack_of_unpack(u);
        }
    }
    v
}

/// Unpacks a rigid-body handle.
pub fn rb_from_u64(v: u64) -> (h: RigidBodyHandle)
    ensures
        h == body_handle_of(v),
        h == rigid_body_handle_from_parts((v / 0x1_0000_0000) as u32, (v % 0x1_0000_0000) as u32),
{
    let (i, g) = unpack_handle(v);
    rigid_body_handle_new(i, g)
}

/// Packs a collider handle. The result is the one `u64` that denotes `h`.
pub fn co_to_u64(h: ColliderHandle) -> (v: u64)
    ensures
        packs_collider(v, h),
        h == collider_handle_from_parts((v / 0x1_0000_0000) as u32, (v % 0x1_0000_0000) as u32),
{
    let (i, g) = collider_handle_parts(h);
    let v = pack_handle(i, g);
    proof {
        lemma_unpack_of_pack(i, g);
        assert forall|u: u64| #[trigger] collider_handle_of(u) == h implies u == v by {
            lemma_pack_of_unpack(u);
        }
    }
    v
}

/// Unpacks a collider handle.
pub fn co_from_u64(v: u64) -> (h: ColliderHandle)
    ensures
        h == collider_handle_of(v),
        h == collider_handle_from_parts((v / 0x1_0000_0000) as u32, (v % 0x1_0000_0000) as u32),
{
    let (i, g) = unpack_handle(v);
    collider_handle_new(i, g)
}

/// Packs an impulse-joint handle. The result is the one `u64` that denotes `h`.
pub fn ij_to_u64(h: ImpulseJointHandle) -> (v: u64)
    ensures
        packs_joint(v, h),
        h == impulse_joint_handle_from_parts((v / 0x1_0000_0000) as u32, (v % 0x1_0000_0000) as u32),
{
    let (i, g) = impulse_joint_handle_parts(h);
    let v = pack_handle(i, g);
    proof {
        lemma_unpack_of_pack(i, g);
        assert forall|u: u64| #[trigger] joint_handle_of(u) == h implies u == v by {
            lemma_pack_of_unpack(u);
        }
    }
    v
}

/// Unpacks an impulse-joint handle.
pub fn ij_from_u64(v: u64) -> (h: ImpulseJointHandle)
    ensures
        h == joint_handle_of(v),
        h == impulse_joint_handle_from_parts((v / 0x1_0000_0000) as u32, (v % 0x1_0000_0000) as u32),
{
    let (i, g) = unpack_handle(v);
    impulse_joint_handle_new(i, g)
}

} // verus!
