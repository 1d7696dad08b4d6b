use bevy::transform::components::Transform;
use space_miner::controller::{Laser, MovementFactor};
use space_miner::weapon::{weapon_system, Weapon, COOLDOWN_NANOS, LASER_ATLAS_INDEX, LASER_SPEED};

const MS: u128 = 1_000_000;

fn craft() -> Option<Transform> {
    Some(Transform::from_xyz(3.0, -4.0, 0.0))
}

fn at_rest() -> MovementFactor {
    MovementFactor { x: 0, y: 0 }
}

#[test]
fn first_shot_is_always_allowed() {
    let mut weapon = Weapon::new();
    assert!(weapon.ready(0));
    let spawn = weapon_system(&mut weapon, 0, true, true, craft(), &at_rest());
    assert!(spawn.is_some());
    assert_eq!(weapon.last_shot, Some(0));
}

#[test]
fn laser_takes_placement_and_frozen_movement() {
    let mut weapon = Weapon::new();
    let moving = MovementFactor { x: 250_000, y: -1_000_000 };
    let spawn = weapon_system(&mut weapon, 5 * MS, true, true, craft(), &moving).unwrap();
    assert_eq!(spawn.transform, Transform::from_xyz(3.0, -4.0, 0.0));
    assert_eq!(spawn.laser, Laser(moving));
    assert_eq!(spawn.forward_speed, 1000);
    assert_eq!(spawn.forward_speed, LASER_SPEED);
    assert_eq!(spawn.atlas_index, 105);
    assert_eq!(spawn.atlas_index, LASER_ATLAS_INDEX);
}

#[test]
fn two_shots_within_cooldown_give_one_laser() {
    let mut weapon = Weapon::new();
    let mut lasers = 0;
    for now in [1000 * MS, 1100 * MS] {
        if weapon_system(&mut weapon, now, true, true, craft(), &at_rest()).is_some() {
            lasers += 1;
        }
    }
    assert_eq!(lasers, 1);
    assert_eq!(weapon.last_shot, Some(1000 * MS));
}

#[test]
fn shot_after_cooldown_gives_second_laser() {
    let mut weapon = Weapon::new();
    assert!(weapon_system(&mut weapon, 1000 * MS, true, true, craft(), &at_rest()).is_some());
    assert!(weapon_system(&mut weapon, 1201 * MS, true, true, craft(), &at_rest()).is_some());
    assert_eq!(weapon.last_shot, Some(1201 * MS));
}

#[test]
fn cooldown_boundary_is_strict() {
    assert_eq!(COOLDOWN_NANOS, 200 * MS);
    let weapon = Weapon { last_shot: Some(1000 * MS) };
    assert!(!weapon.ready(1000 * MS + COOLDOWN_NANOS - 1));
    assert!(!weapon.ready(1000 * MS + COOLDOWN_NANOS));
    assert!(weapon.ready(1000 * MS + COOLDOWN_NANOS + 1));
}

#[test]
fn clock_before_last_shot_does_not_fire() {
    let mut weapon = Weapon { last_shot: Some(1000 * MS) };
    assert!(!weapon.ready(10 * MS));
    assert!(weapon_system(&mut weapon, 10 * MS, true, true, craft(), &at_rest()).is_none());
    assert_eq!(weapon.last_shot, Some(1000 * MS));
}

#[test]
fn held_fire_shoots_once_per_window() {
    let mut weapon = Weapon::new();
    let mut shots: Vec<u128> = Vec::new();
    let mut now: u128 = 0;
    while now <= 1000 * MS {
        if weapon_system(&mut weapon, now, true, true, craft(), &at_rest()).is_some() {
            shots.push(now);
        }
        now += 16 * MS;
    }
    assert_eq!(shots, vec![0, 208 * MS, 416 * MS, 624 * MS, 832 * MS]);
    for pair in shots.windows(2) {
        assert!(pair[1] - pair[0] > COOLDOWN_NANOS);
    }
}

#[test]
fn no_fire_key_no_laser() {
    let mut weapon = Weapon::new();
    assert!(weapon_system(&mut weapon, 7, false, true, craft(), &at_rest()).is_none());
    assert_eq!(weapon.last_shot, None);
}

#[test]
fn missing_craft_is_a_no_op() {
    let mut weapon = Weapon::new();
    assert!(weapon_system(&mut weapon, 7, true, true, None, &at_rest()).is_none());
    assert_eq!(weapon.last_shot, None);
}

#[test]
fn unloaded_sprites_defer_the_shot() {
    let mut weapon = Weapon::new();
    assert!(weapon_system(&mut weapon, 7, true, false, craft(), &at_rest()).is_none());
    assert_eq!(weapon.last_shot, None);
    assert!(weapon_system(&mut weapon, 8, true, true, craft(), &at_rest()).is_some());
    assert_eq!(weapon.last_shot, Some(8));
}
