# rapier_c

A flat C interface over the `rapier3d` physics engine (f32, 3-D), split in two:

- `src/` — the verified library (Verus). It holds what the interface decides:
  packing rapier's generational handles into one `u64` (`index << 32 | generation`,
  with `u64::MAX` as "no handle"), decoding the integer-coded descriptor fields
  (body types, collider shapes, joint types, axes, motors, query filters, collision
  groups), the 1-based handles of vehicle and character controllers, the collision and
  contact-force events kept after a step and read back by position, and how answers are
  coded for the C side.
- `app/` — the `#[no_mangle] extern "C"` functions themselves: raw-pointer reads and
  writes and the floating-point physics calls into rapier, driven by the library.
