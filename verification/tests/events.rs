use rapier3d::geometry::ColliderHandle;
use rapier_c::events::{collision_record, force_record, CollisionRecord, EventList};
use rapier_c::world::{
    rpr_world_collision_event, rpr_world_contact_force_event, rpr_world_num_collision_events,
    rpr_world_num_contact_force_events, RprWorld,
};

type W = RprWorld<(), (), (), (f32, f32)>;

#[test]
fn collision_records_pack_handles_and_started() {
    let a = ColliderHandle::from_raw_parts(1, 2);
    let b = ColliderHandle::from_raw_parts(3, 4);
    assert_eq!(
        collision_record(a, b, true),
        CollisionRecord { c1: (1u64 << 32) | 2, c2: (3u64 << 32) | 4, started: 1 }
    );
    assert_eq!(collision_record(a, b, false).started, 0);
    let f = force_record(b, a, 9u8);
    assert_eq!((f.c1, f.c2, f.magnitudes), ((3u64 << 32) | 4, (1u64 << 32) | 2, 9u8));
}

#[test]
fn step_events_read_back_in_order() {
    let mut w: W = RprWorld::new(());
    assert_eq!(rpr_world_num_collision_events(&w), 0);
    w.begin_step_events();
    w.record_collision_event(ColliderHandle::from_raw_parts(0, 0), ColliderHandle::from_raw_parts(1, 0), true);
    w.record_collision_event(ColliderHandle::from_raw_parts(2, 0), ColliderHandle::from_raw_parts(3, 0), false);
    w.record_contact_force_event(ColliderHandle::from_raw_parts(4, 1), ColliderHandle::from_raw_parts(5, 1), (2.0, 1.5));
    assert_eq!(rpr_world_num_collision_events(&w), 2);
    assert_eq!(rpr_world_num_contact_force_events(&w), 1);
    assert_eq!(
        rpr_world_collision_event(&w, 0),
        Some(CollisionRecord { c1: 0, c2: 1u64 << 32, started: 1 })
    );
    assert_eq!(
        rpr_world_collision_event(&w, 1),
        Some(CollisionRecord { c1: 2u64 << 32, c2: 3u64 << 32, started: 0 })
    );
    let f = rpr_world_contact_force_event(&w, 0).unwrap();
    assert_eq!((f.c1, f.c2, f.magnitudes), ((4u64 << 32) | 1, (5u64 << 32) | 1, (2.0, 1.5)));
}

#[test]
fn out_of_range_events_read_as_nothing() {
    let mut w: W = RprWorld::new(());
    assert_eq!(rpr_world_collision_event(&w, 0), None);
    assert!(rpr_world_contact_force_event(&w, 0).is_none());
    w.record_collision_event(ColliderHandle::from_raw_parts(0, 0), ColliderHandle::from_raw_parts(0, 0), true);
    assert_eq!(rpr_world_collision_event(&w, 1), None);
    assert_eq!(rpr_world_collision_event(&w, u32::MAX), None);
}

#[test]
fn a_new_step_forgets_the_previous_events() {
    let mut w: W = RprWorld::new(());
    w.record_collision_event(ColliderHandle::from_raw_parts(0, 0), ColliderHandle::from_raw_parts(1, 0), true);
    w.record_contact_force_event(ColliderHandle::from_raw_parts(0, 0), ColliderHandle::from_raw_parts(1, 0), (0.0, 0.0));
    w.begin_step_events();
    assert_eq!(rpr_world_num_collision_events(&w), 0);
    assert_eq!(rpr_world_num_contact_force_events(&w), 0);
    assert_eq!(rpr_world_collision_event(&w, 0), None);
}

#[test]
fn event_list_basics() {
    let mut l: EventList<u8> = EventList::new();
    l.push(4);
    l.push(5);
    assert_eq!(l.count(), 2);
    assert_eq!(l.get(1), Some(&5));
    l.clear();
    assert_eq!(l.count(), 0);
    assert_eq!(l.get(0), None);
}
