use bevy::ecs::entity::Entity;
use bevy::transform::components::Transform;
use bevy_xpbd_2d::prelude::CollidingEntities;
use space_miner::asteroid::MeteorType;
use space_miner::collisions::{
    laser_meteor_collision, listed, mark_removed, ship_meteor_collision, MeteorBody, PlayerBody,
};

fn id(index: u32) -> u64 {
    Entity::from_raw(index).to_bits()
}

fn overlapping(indices: &[u32]) -> CollidingEntities {
    let mut set = CollidingEntities::default();
    for index in indices {
        set.insert(Entity::from_raw(*index));
    }
    set
}

fn sorted(mut ids: Vec<u64>) -> Vec<u64> {
    ids.sort();
    ids
}

#[test]
fn laser_on_one_meteor_removes_both_with_one_event() {
    let craft = id(1);
    let laser = id(10);
    let touching = overlapping(&[10]);
    let place = Transform::from_xyz(50.0, 100.0, 1.0);
    let meteors = vec![MeteorBody {
        entity: id(20),
        colliding: &touching,
        meteor_type: MeteorType::Medium,
        transform: place,
    }];
    let out = laser_meteor_collision(&vec![laser], &meteors);
    assert_eq!(sorted(out.despawned.clone()), sorted(vec![laser, id(20)]));
    assert!(!out.despawned.contains(&craft));
    assert_eq!(out.events.len(), 1);
    assert_eq!(out.events[0].destroyed_at, place);
    assert_eq!(out.events[0].destroyed_type, MeteorType::Medium);
}

#[test]
fn no_overlap_removes_nothing() {
    let empty = overlapping(&[]);
    let elsewhere = overlapping(&[99]);
    let meteors = vec![
        MeteorBody {
            entity: id(20),
            colliding: &empty,
            meteor_type: MeteorType::Big,
            transform: Transform::IDENTITY,
        },
        MeteorBody {
            entity: id(21),
            colliding: &elsewhere,
            meteor_type: MeteorType::Small,
            transform: Transform::IDENTITY,
        },
    ];
    let out = laser_meteor_collision(&vec![id(10), id(11)], &meteors);
    assert!(out.despawned.is_empty());
    assert!(out.events.is_empty());
}

#[test]
fn meteor_touching_the_craft_is_not_a_laser_hit() {
    let touching = overlapping(&[1]);
    let meteors = vec![MeteorBody {
        entity: id(20),
        colliding: &touching,
        meteor_type: MeteorType::Big,
        transform: Transform::IDENTITY,
    }];
    let out = laser_meteor_collision(&vec![id(10)], &meteors);
    assert!(out.despawned.is_empty());
    assert!(out.events.is_empty());
}

#[test]
fn meteor_hit_by_two_lasers_is_removed_once() {
    let touching = overlapping(&[10, 11]);
    let place = Transform::from_xyz(-7.0, 8.0, 1.0);
    let meteors = vec![MeteorBody {
        entity: id(20),
        colliding: &touching,
        meteor_type: MeteorType::Small,
        transform: place,
    }];
    let out = laser_meteor_collision(&vec![id(10), id(11), id(12)], &meteors);
    assert_eq!(out.despawned, vec![id(10), id(20), id(11)]);
    assert_eq!(out.events.len(), 2);
    for event in &out.events {
        assert_eq!(event.destroyed_at, place);
        assert_eq!(event.destroyed_type, MeteorType::Small);
    }
}

#[test]
fn laser_through_two_meteors_is_removed_once() {
    let first = overlapping(&[10]);
    let second = overlapping(&[10]);
    let meteors = vec![
        MeteorBody {
            entity: id(20),
            colliding: &first,
            meteor_type: MeteorType::Big,
            transform: Transform::from_xyz(1.0, 0.0, 0.0),
        },
        MeteorBody {
            entity: id(21),
            colliding: &second,
            meteor_type: MeteorType::Medium,
            transform: Transform::from_xyz(2.0, 0.0, 0.0),
        },
    ];
    let out = laser_meteor_collision(&vec![id(10)], &meteors);
    assert_eq!(out.despawned, vec![id(10), id(20), id(21)]);
    assert_eq!(out.events.len(), 2);
    assert_eq!(out.events[0].destroyed_type, MeteorType::Big);
    assert_eq!(out.events[0].destroyed_at, Transform::from_xyz(1.0, 0.0, 0.0));
    assert_eq!(out.events[1].destroyed_type, MeteorType::Medium);
    assert_eq!(out.events[1].destroyed_at, Transform::from_xyz(2.0, 0.0, 0.0));
}

#[test]
fn events_follow_meteors_then_lasers() {
    let first = overlapping(&[11]);
    let second = overlapping(&[10, 11]);
    let meteors = vec![
        MeteorBody {
            entity: id(20),
            colliding: &first,
            meteor_type: MeteorType::Big,
            transform: Transform::IDENTITY,
        },
        MeteorBody {
            entity: id(21),
            colliding: &second,
            meteor_type: MeteorType::Small,
            transform: Transform::IDENTITY,
        },
    ];
    let out = laser_meteor_collision(&vec![id(10), id(11)], &meteors);
    let kinds: Vec<MeteorType> = out.events.iter().map(|event| event.destroyed_type).collect();
    assert_eq!(kinds, vec![MeteorType::Big, MeteorType::Small, MeteorType::Small]);
    assert_eq!(out.despawned, vec![id(11), id(20), id(10), id(21)]);
}

#[test]
fn identifier_that_is_no_entity_overlaps_nothing() {
    let touching = overlapping(&[10]);
    let meteors = vec![MeteorBody {
        entity: id(20),
        colliding: &touching,
        meteor_type: MeteorType::Big,
        transform: Transform::IDENTITY,
    }];
    let out = laser_meteor_collision(&vec![0], &meteors);
    assert!(out.despawned.is_empty());
    assert!(out.events.is_empty());
}

#[test]
fn craft_on_meteor_removes_the_craft_only() {
    let touching = overlapping(&[20]);
    let place = Transform::from_xyz(12.0, -3.0, 0.0);
    let players = vec![PlayerBody { entity: id(1), colliding: &touching, transform: place }];
    let out = ship_meteor_collision(&vec![id(20), id(21)], &players);
    assert_eq!(out.despawned, vec![id(1)]);
    assert_eq!(out.events.len(), 1);
    assert_eq!(out.events[0].destroyed_at, place);
}

#[test]
fn craft_touching_its_own_laser_survives() {
    let touching = overlapping(&[10]);
    let players =
        vec![PlayerBody { entity: id(1), colliding: &touching, transform: Transform::IDENTITY }];
    let out = ship_meteor_collision(&vec![id(20)], &players);
    assert!(out.despawned.is_empty());
    assert!(out.events.is_empty());
}

#[test]
fn craft_on_two_meteors_is_removed_once_with_an_event_each() {
    let touching = overlapping(&[20, 21]);
    let players =
        vec![PlayerBody { entity: id(1), colliding: &touching, transform: Transform::IDENTITY }];
    let out = ship_meteor_collision(&vec![id(20), id(21)], &players);
    assert_eq!(out.despawned, vec![id(1)]);
    assert_eq!(out.events.len(), 2);
}

#[test]
fn no_craft_no_impact() {
    let players: Vec<PlayerBody> = Vec::new();
    let out = ship_meteor_collision(&vec![id(20)], &players);
    assert!(out.despawned.is_empty());
    assert!(out.events.is_empty());
}

#[test]
fn marking_twice_names_once() {
    let mut ids: Vec<u64> = Vec::new();
    mark_removed(&mut ids, 7);
    mark_removed(&mut ids, 9);
    mark_removed(&mut ids, 7);
    assert_eq!(ids, vec![7, 9]);
    assert!(listed(&ids, 9));
    assert!(!listed(&ids, 8));
}
