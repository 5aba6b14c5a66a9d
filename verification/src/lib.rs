//! Verified core of a flat C interface over the `rapier3d` physics engine.
//!
//! The C side names rigid bodies, colliders and impulse joints by a single `u64`
//! (`index << 32 | generation` of rapier's own generational handle), names vehicle and
//! character controllers by 1-based integer handles, reads drained collision events back
//! by position, and describes bodies, colliders and joints through integer-coded
//! descriptor fields. This crate holds that logic with its contracts; the floating-point
//! physics itself is rapier's.

pub mod answers;
pub mod character;
pub mod descriptors;
pub mod events;
pub mod handles;
pub mod mesh;
pub mod registry;
pub mod vehicle;
pub mod world;
