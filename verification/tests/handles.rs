use rapier3d::dynamics::{ImpulseJointHandle, RigidBodyHandle};
use rapier3d::geometry::ColliderHandle;
use rapier_c::handles::{
    co_from_u64, co_to_u64, ij_from_u64, ij_to_u64, pack_handle, rb_from_u64, rb_to_u64,
    unpack_handle, RPR_INVALID,
};

#[test]
fn pack_puts_index_high_and_generation_low() {
    assert_eq!(pack_handle(1, 2), 0x0000_0001_0000_0002);
    assert_eq!(pack_handle(0, 0), 0);
    assert_eq!(pack_handle(0xdead_beef, 0x1234_5678), 0xdead_beef_1234_5678);
}

#[test]
fn unpack_splits_halves() {
    assert_eq!(unpack_handle(0x0000_0001_0000_0002), (1, 2));
    assert_eq!(unpack_handle(u64::MAX), (u32::MAX, u32::MAX));
    assert_eq!(unpack_handle(0), (0, 0));
}

#[test]
fn pack_unpack_round_trip() {
    for v in [0u64, 1, 0xffff_ffff, 0x1_0000_0000, 0x8000_0000_8000_0001, u64::MAX] {
        let (i, g) = unpack_handle(v);
        assert_eq!(pack_handle(i, g), v);
    }
    for (i, g) in [(0u32, 0u32), (7, 1), (u32::MAX, 0), (0, u32::MAX)] {
        assert_eq!(unpack_handle(pack_handle(i, g)), (i, g));
    }
}

#[test]
fn invalid_is_rapier_invalid_and_not_zero() {
    assert_eq!(RPR_INVALID, u64::MAX);
    assert_eq!(rb_to_u64(RigidBodyHandle::invalid()), RPR_INVALID);
    assert_eq!(co_to_u64(ColliderHandle::invalid()), RPR_INVALID);
    assert_eq!(rb_to_u64(RigidBodyHandle::from_raw_parts(0, 0)), 0);
    assert_ne!(rb_to_u64(RigidBodyHandle::from_raw_parts(0, 0)), RPR_INVALID);
}

#[test]
fn body_handles_match_rapier_raw_parts() {
    let h = RigidBodyHandle::from_raw_parts(5, 7);
    assert_eq!(rb_to_u64(h), (5u64 << 32) | 7);
    assert_eq!(rb_from_u64((5u64 << 32) | 7), h);
    assert_eq!(rb_from_u64((5u64 << 32) | 7).into_raw_parts(), (5, 7));
    assert_eq!(rb_from_u64(rb_to_u64(h)), h);
    assert_eq!(rb_to_u64(rb_from_u64(0x0102_0304_0506_0708)), 0x0102_0304_0506_0708);
}

#[test]
fn collider_handles_match_rapier_raw_parts() {
    let h = ColliderHandle::from_raw_parts(9, 3);
    assert_eq!(co_to_u64(h), (9u64 << 32) | 3);
    assert_eq!(co_from_u64((9u64 << 32) | 3), h);
    assert_eq!(co_from_u64(0x0000_0002_0000_0001).into_raw_parts(), (2, 1));
    assert_eq!(co_to_u64(co_from_u64(42)), 42);
}

#[test]
fn joint_handles_match_rapier_raw_parts() {
    let h = ImpulseJointHandle::from_raw_parts(11, 4);
    assert_eq!(ij_to_u64(h), (11u64 << 32) | 4);
    assert_eq!(ij_from_u64((11u64 << 32) | 4), h);
    assert_eq!(ij_from_u64(0x0000_0003_0000_0009).into_raw_parts(), (3, 9));
    assert_eq!(ij_to_u64(ij_from_u64(u64::MAX - 1)), u64::MAX - 1);
}
