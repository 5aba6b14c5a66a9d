//! Everything one world owns beside rapier's physics: the vehicle and character
//! controllers, named by 1-based handles, and the events drained after the last step.

use crate::events::{collision_record, force_record, CollisionRecord, EventList, ForceRecord};
use crate::handles::packs_collider;
use crate::registry::Registry;
use rapier3d::geometry::ColliderHandle;
use vstd::prelude::*;

verus! {

/// A world: the physics `world` (`P`), vehicle controllers (`V`), character controllers
/// (`C`), and the collision and contact-force events (force figures `M`) of the last step.
pub struct RprWorld<P, V, C, M> {
    pub world: P,
    pub vehicles: Registry<V>,
    pub characters: Registry<C>,
    pub pending_coll: EventList<CollisionRecord>,
    pub pending_force: EventList<ForceRecord<M>>,
}

impl<P, V, C, M> RprWorld<P, V, C, M> {
    /// A world around `world`, with no controllers and no events.
    pub fn new(world: P) -> (r: Self)
        ensures
            r.world == world,
            r.vehicles.items() == Seq::<V>::empty(),
            r.characters.items() == Seq::<C>::empty(),
            r.pending_coll.events() == Seq::<CollisionRecord>::empty(),
            r.pending_force.events() == Seq::<ForceRecord<M>>::empty(),
    {
        RprWorld {
            world,
            vehicles: Registry::new(),
            characters: Registry::new(),
            pending_coll: EventList::new(),
            pending_force: EventList::new(),
        }
    }

    /// Forgets the events of the previous step, before a step that collects events.
    pub fn begin_step_events(&mut self)
        ensures
            final(self).pending_coll.events() == Seq::<CollisionRecord>::empty(),
            final(self).pending_force.events() == Seq::<ForceRecord<M>>::empty(),
            final(self).world == old(self).world,
            final(self).vehicles == old(self).vehicles,
            final(self).characters == old(self).characters,
    {
        self.pending_coll.clear();
        self.pending_force.clear();
    }

    /// Keeps one drained collision event: `c1` and `c2` started (`started`) or stopped
    /// touching.
    pub fn record_collision_event(&mut self, c1: ColliderHandle, c2: ColliderHandle, started: bool)
        ensures
            final(self).pending_coll.events().len() == old(self).pending_coll.events().len() + 1,
            final(self).pending_coll.events().drop_last() == old(self).pending_coll.events(),
            packs_collider(final(self).pending_coll.events().last().c1, c1),
            packs_collider(final(self).pending_coll.events().last().c2, c2),
            final(self).pending_coll.events().last().started == (if started { 1i32 } else { 0i32 }),
            final(self).pending_force == old(self).pending_force,
            final(self).world == old(self).world,
            final(self).vehicles == old(self).vehicles,
            final(self).characters == old(self).characters,
    {
        let r = collision_record(c1, c2, started);
        self.pending_coll.push(r);
        assert(self.pending_coll.events().drop_last() =~= old(self).pending_coll.events());
    }

    /// Keeps one drained contact-force event between `c1` and `c2`, with its figures.
    pub fn record_contact_force_event(&mut self, c1: ColliderHandle, c2: ColliderHandle, magnitudes: M)
        ensures
            final(self).pending_force.events().len() == old(self).pending_force.events().len() + 1,
            final(self).pending_force.events().drop_last() == old(self).pending_force.events(),
            packs_collider(final(self).pending_force.events().last().c1, c1),
            packs_collider(final(self).pending_force.events().last().c2, c2),
            final(self).pending_force.events().last().magnitudes == magnitudes,
            final(self).pending_coll == old(self).pending_coll,
            final(self).world == old(self).world,
            final(self).vehicles == old(self).vehicles,
            final(self).characters == old(self).characters,
    {
        let r = force_record(c1, c2, magnitudes);
        self.pending_force.push(r);
        assert(self.pending_force.events().drop_last() =~= old(self).pending_force.events());
    }
}

/// The number of collision events of the last step (modulo 2^32).
pub fn rpr_world_num_collision_events<P, V, C, M>(w: &RprWorld<P, V, C, M>) -> (n: u32)
    ensures
        n == w.pending_coll.events().len() as u32,
{
    w.pending_coll.count()
}

/// The `i`-th collision event of the last step, if there are more than `i`.
pub fn rpr_world_collision_event<P, V, C, M>(w: &RprWorld<P, V, C, M>, i: u32) -> (r: Option<CollisionRecord>)
    ensures
        r == (if (i as int) < w.pending_coll.events().len() {
            Some(w.pending_coll.events()[i as int])
        } else {
            None
        }),
{
    match w.pending_coll.get(i) {
        Some(e) => Some(*e),
        None => None,
    }
}

/// The number of contact-force events of the last step (modulo 2^32).
pub fn rpr_world_num_contact_force_events<P, V, C, M>(w: &RprWorld<P, V, C, M>) -> (n: u32)
    ensures
        n == w.pending_force.events().len() as u32,
{
    w.pending_force.count()
}

/// The `i`-th contact-force event of the last step, if there are more than `i`.
pub fn rpr_world_contact_force_event<P, V, C, M>(w: &RprWorld<P, V, C, M>, i: u32) -> (r: Option<&ForceRecord<M>>)
    ensures
        r == (if (i as int) < w.pending_force.events().len() {
            Some(&w.pending_force.events()[i as int])
        } else {
            None
        }),
{
    w.pending_force.get(i)
}

/// Adds a character controller and returns its 1-based handle.
pub fn rpr_world_create_character_controller<P, V, C, M>(w: &mut RprWorld<P, V, C, M>, controller: C) -> (h: u64)
    requires
        old(w).characters.items().len() < usize::MAX,
    ensures
        final(w).characters.items() == old(w).characters.items().push(controller),
        h == final(w).characters.items().len(),
        final(w).world == old(w).world,
        final(w).vehicles == old(w).vehicles,
        final(w).pending_coll == old(w).pending_coll,
        final(w).pending_force == old(w).pending_force,
{
    w.characters.create(controller)
}

} // verus!
