//! Events drained after a step, kept until the next step for the C side to read back by
//! position.

use crate::handles::{co_to_u64, packs_collider};
use rapier3d::geometry::ColliderHandle;
use vstd::prelude::*;

verus! {

/// One collision event as the C side reads it: the two colliders, packed, and 1 when the
/// contact started, 0 when it stopped.
#[derive(Clone, Copy, Debug, PartialEq, Eq, Structural)]
pub struct CollisionRecord {
    pub c1: u64,
    pub c2: u64,
    pub started: i32,
}

/// One contact-force event as the C side reads it: the two colliders, packed, and the
/// force figures `M` that rapier reported with them.
pub struct ForceRecord<M> {
    pub c1: u64,
    pub c2: u64,
    pub magnitudes: M,
}

/// The record of a collision event between `c1` and `c2` that started (`started`) or
/// stopped.
pub fn collision_record(c1: ColliderHandle, c2: ColliderHandle, started: bool) -> (r: CollisionRecord)
    ensures
        packs_collider(r.c1, c1),
        packs_collider(r.c2, c2),
        r.started == (if started { 1i32 } else { 0i32 }),
{
    CollisionRecord { c1: co_to_u64(c1), c2: co_to_u64(c2), started: if started { 1 } else { 0 } }
}

/// The record of a contact-force event between `c1` and `c2` with figures `magnitudes`.
pub fn force_record<M>(c1: ColliderHandle, c2: ColliderHandle, magnitudes: M) -> (r: ForceRecord<M>)
    ensures
        packs_collider(r.c1, c1),
        packs_collider(r.c2, c2),
        r.magnitudes == magnitudes,
{
    ForceRecord { c1: co_to_u64(c1), c2: co_to_u64(c2), magnitudes }
}

/// The events of the last step, in the order they were drained.
pub struct EventList<T> {
    events: Vec<T>,
}

impl<T> EventList<T> {
    /// The events held, in order.
    pub closed spec fn events(&self) -> Seq<T> {
        self.events@
    }

    /// An empty list.
    pub fn new() -> (r: Self)
        ensures
            r.events() == Seq::<T>::empty(),
    {
        EventList { events: Vec::new() }
    }

    /// Forgets every event held.
    pub fn clear(&mut self)
        ensures
            final(self).events() == Seq::<T>::empty(),
    {
        self.events.clear();
    }

    /// Appends an event.
    pub fn push(&mut self, e: T)
        ensures
            final(self).events() == old(self).events().push(e),
    {
        self.events.push(e);
    }

    /// The number of events held, as the C side's `u32` (taken modulo 2^32).
    pub fn count(&self) -> (n: u32)
        ensures
            n == self.events().len() as u32,
    {
        self.events.len() as u32
    }

    /// The `i`-th event (from 0), if there are more than `i`.
    pub fn get(&self, i: u32) -> (r: Option<&T>)
        ensures
            r == (if (i as int) < self.events().len() {
                Some(&self.events()[i as int])
            } else {
                None
            }),
    {
        let k = i as usize;
        if k < self.events.len() {
            Some(&self.events[k])
        } else {
            None
        }
    }
}

} // verus!
