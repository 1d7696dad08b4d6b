use bevy::ecs::entity::Entity;
use bevy::transform::components::Transform;
use bevy_xpbd_2d::prelude::CollidingEntities;
use space_miner::collisions::{ship_meteor_collision, PlayerBody};
use space_miner::controller::MovementFactor;
use space_miner::game::{test_game_start, GameState};
use space_miner::lives::{Lives, INITIAL_LIVES};
use space_miner::spaceship::{
    craft_state, new_ship, player_ship_destroyed_event_handler, spawn_ship_after_ship_destroyed,
    CapsuleShape, CraftState, EngineFire, ShipDestroyed, ShipLevels,
};
use space_miner::asteroid::MeteorType;

fn destroyed_at(x: f32, y: f32) -> ShipDestroyed {
    ShipDestroyed { destroyed_at: Transform::from_xyz(x, y, 0.0) }
}

#[test]
fn life_counter_scenario() {
    let mut lives = Lives::new();
    let mut movement = MovementFactor { x: 400_000, y: -20 };
    assert_eq!(lives.count(), 3);
    assert!(spawn_ship_after_ship_destroyed(true, &lives, true, &mut movement).is_none());

    let effects = player_ship_destroyed_event_handler(
        &vec![destroyed_at(1.0, 2.0)],
        true,
        true,
        &mut movement,
        &mut lives,
    );
    assert_eq!(effects, vec![Transform::from_xyz(1.0, 2.0, 0.0)]);
    assert_eq!(lives, Lives(2));
    assert_eq!(movement, MovementFactor { x: 0, y: 0 });
    assert!(spawn_ship_after_ship_destroyed(true, &lives, true, &mut movement).is_some());

    player_ship_destroyed_event_handler(
        &vec![destroyed_at(0.0, 0.0)],
        true,
        true,
        &mut movement,
        &mut lives,
    );
    assert_eq!(lives, Lives(1));
    assert!(spawn_ship_after_ship_destroyed(true, &lives, true, &mut movement).is_some());

    player_ship_destroyed_event_handler(
        &vec![destroyed_at(0.0, 0.0)],
        true,
        true,
        &mut movement,
        &mut lives,
    );
    assert_eq!(lives, Lives(0));
    assert!(lives.is_game_over());
    assert!(spawn_ship_after_ship_destroyed(true, &lives, true, &mut movement).is_none());

    player_ship_destroyed_event_handler(
        &vec![destroyed_at(0.0, 0.0), destroyed_at(1.0, 1.0)],
        true,
        true,
        &mut movement,
        &mut lives,
    );
    assert_eq!(lives, Lives(0));
    assert!(spawn_ship_after_ship_destroyed(true, &lives, true, &mut movement).is_none());
    assert!(spawn_ship_after_ship_destroyed(false, &lives, true, &mut movement).is_none());
}

#[test]
fn destruction_resets_movement_and_takes_one_life() {
    let mut lives = Lives(2);
    let mut movement = MovementFactor { x: -1_000_000, y: 1_000_000 };
    let effects = player_ship_destroyed_event_handler(
        &vec![destroyed_at(-5.0, 9.5)],
        true,
        true,
        &mut movement,
        &mut lives,
    );
    assert_eq!(lives.count(), 1);
    assert_eq!(movement, MovementFactor { x: 0, y: 0 });
    assert_eq!(effects.len(), 1);
    assert_eq!(effects[0], Transform::from_xyz(-5.0, 9.5, 0.0));
}

#[test]
fn two_events_take_two_lives() {
    let mut lives = Lives(3);
    let mut movement = MovementFactor { x: 1, y: 1 };
    let effects = player_ship_destroyed_event_handler(
        &vec![destroyed_at(1.0, 0.0), destroyed_at(2.0, 0.0)],
        true,
        true,
        &mut movement,
        &mut lives,
    );
    assert_eq!(lives, Lives(1));
    assert_eq!(
        effects,
        vec![Transform::from_xyz(1.0, 0.0, 0.0), Transform::from_xyz(2.0, 0.0, 0.0)]
    );
}

#[test]
fn no_event_changes_nothing() {
    let mut lives = Lives(3);
    let mut movement = MovementFactor { x: 17, y: -4 };
    let effects =
        player_ship_destroyed_event_handler(&Vec::new(), true, true, &mut movement, &mut lives);
    assert!(effects.is_empty());
    assert_eq!(lives, Lives(3));
    assert_eq!(movement, MovementFactor { x: 17, y: -4 });
}

#[test]
fn handler_defers_until_sprites_and_effect_are_ready() {
    for (assets_ready, effect_ready) in [(false, true), (true, false), (false, false)] {
        let mut lives = Lives(3);
        let mut movement = MovementFactor { x: 17, y: -4 };
        let effects = player_ship_destroyed_event_handler(
            &vec![destroyed_at(1.0, 1.0)],
            assets_ready,
            effect_ready,
            &mut movement,
            &mut lives,
        );
        assert!(effects.is_empty());
        assert_eq!(lives, Lives(3));
        assert_eq!(movement, MovementFactor { x: 17, y: -4 });
    }
}

#[test]
fn life_counter_never_goes_below_zero() {
    let mut lives = Lives(1);
    lives.remove_life();
    assert_eq!(lives, Lives(0));
    lives.remove_life();
    assert_eq!(lives, Lives(0));
    assert_eq!(INITIAL_LIVES, 3);
}

#[test]
fn respawn_guards() {
    let mut movement = MovementFactor { x: 5, y: 6 };
    assert!(spawn_ship_after_ship_destroyed(false, &Lives(2), true, &mut movement).is_none());
    assert!(spawn_ship_after_ship_destroyed(true, &Lives(3), true, &mut movement).is_none());
    assert!(spawn_ship_after_ship_destroyed(true, &Lives(0), true, &mut movement).is_none());
    assert!(spawn_ship_after_ship_destroyed(true, &Lives(2), false, &mut movement).is_none());
    assert_eq!(movement, MovementFactor { x: 5, y: 6 });
    assert!(spawn_ship_after_ship_destroyed(true, &Lives(4), true, &mut movement).is_some());
    assert_eq!(movement, MovementFactor { x: 0, y: 0 });
}

#[test]
fn respawned_craft_layout() {
    let mut movement = MovementFactor { x: 5, y: 6 };
    let ship = spawn_ship_after_ship_destroyed(true, &Lives(1), true, &mut movement).unwrap();
    assert_eq!(movement, MovementFactor { x: 0, y: 0 });
    assert_eq!((ship.x, ship.y), (0, 0));
    assert_eq!(ship.ship_type, ShipLevels::Initial);
    assert_eq!(ship.atlas_index, 200);
    assert_eq!(ship.collider_radius, 32);
    assert!(!ship.wrapping);
    assert_eq!(
        ship.engine_fire,
        EngineFire { x: 0, y: -60, z: 1, atlas_index: 74, flip_y: true, visible: false }
    );
    assert_eq!(
        ship.right_thruster,
        EngineFire { x: 16, y: -40, z: 1, atlas_index: 75, flip_y: true, visible: false }
    );
    assert_eq!(
        ship.left_thruster,
        EngineFire { x: -16, y: -40, z: 1, atlas_index: 75, flip_y: true, visible: false }
    );
    assert_eq!(ship, new_ship(false));
}

#[test]
fn ship_levels_table() {
    assert_eq!(ShipLevels::Initial.base_atlas_index(), 200);
    assert_eq!(ShipLevels::Mid.base_atlas_index(), 207);
    assert_eq!(ShipLevels::Best.base_atlas_index(), 214);
    assert_eq!(ShipLevels::Initial.life_atlas_index(), 188);
    assert_eq!(ShipLevels::Mid.life_atlas_index(), 192);
    assert_eq!(ShipLevels::Best.life_atlas_index(), 196);
    assert_eq!(
        ShipLevels::all_ships(),
        vec![ShipLevels::Initial, ShipLevels::Mid, ShipLevels::Best]
    );
    assert_eq!(ShipLevels::Mid.collider(), CapsuleShape { height: 40, radius: 10 });
    assert_eq!(ShipLevels::Initial.base_ship_speed().movement_speed, 200);
    assert_eq!(ShipLevels::Mid.base_ship_speed().movement_speed, 350);
    assert_eq!(ShipLevels::Best.base_ship_speed().movement_speed, 500);
    for ship in ShipLevels::all_ships() {
        assert_eq!(ship.base_ship_speed().rotation_speed, 360);
    }
}

#[test]
fn opening_of_a_game() {
    let start = test_game_start();
    assert_eq!(start.ship, new_ship(true));
    assert!(start.ship.wrapping);
    assert_eq!(start.meteor_type, MeteorType::Big);
    assert_eq!((start.meteor_x, start.meteor_y, start.meteor_z), (50, 100, 1));
    assert_eq!(GameState::default(), GameState::AssetLoading);
}

#[test]
fn states_of_the_craft() {
    assert_eq!(craft_state(true, false, &Lives(3), true), CraftState::Alive);
    assert_eq!(craft_state(true, true, &Lives(0), true), CraftState::Alive);
    assert_eq!(craft_state(false, true, &Lives(2), true), CraftState::Respawning);
    assert_eq!(craft_state(false, true, &Lives(1), true), CraftState::Respawning);
    assert_eq!(craft_state(false, false, &Lives(2), true), CraftState::Destroyed);
    assert_eq!(craft_state(false, true, &Lives(2), false), CraftState::Destroyed);
    assert_eq!(craft_state(false, true, &Lives(3), true), CraftState::Destroyed);
    assert_eq!(craft_state(false, true, &Lives(0), true), CraftState::GameOver);
    assert_eq!(craft_state(false, false, &Lives(0), false), CraftState::GameOver);
}

#[test]
fn respawn_happens_exactly_in_the_respawning_state() {
    for count in 0..5 {
        for changed in [false, true] {
            for ready in [false, true] {
                let mut movement = MovementFactor { x: 1, y: 1 };
                let spawn =
                    spawn_ship_after_ship_destroyed(changed, &Lives(count), ready, &mut movement);
                let state = craft_state(false, changed, &Lives(count), ready);
                assert_eq!(spawn.is_some(), state == CraftState::Respawning);
            }
        }
    }
}

#[test]
fn impact_takes_a_life_and_brings_a_new_craft() {
    let craft = Entity::from_raw(1).to_bits();
    let meteor = Entity::from_raw(2).to_bits();
    let mut touching = CollidingEntities::default();
    touching.insert(Entity::from_raw(2));
    let place = Transform::from_xyz(120.0, -80.0, 0.0);
    let players = vec![PlayerBody { entity: craft, colliding: &touching, transform: place }];

    let outcome = ship_meteor_collision(&vec![meteor], &players);
    assert_eq!(outcome.despawned, vec![craft]);
    assert_eq!(outcome.events.len(), 1);

    let mut lives = Lives::new();
    let mut movement = MovementFactor { x: 730_000, y: -1_000_000 };
    let effects = player_ship_destroyed_event_handler(
        &outcome.events,
        true,
        true,
        &mut movement,
        &mut lives,
    );
    assert_eq!(effects, vec![place]);
    assert_eq!(lives, Lives(2));
    assert_eq!(movement, MovementFactor { x: 0, y: 0 });
    assert_eq!(craft_state(false, true, &lives, true), CraftState::Respawning);

    let ship = spawn_ship_after_ship_destroyed(true, &lives, true, &mut movement).unwrap();
    assert_eq!((ship.x, ship.y), (0, 0));
    assert_eq!(ship.ship_type, ShipLevels::Initial);
    assert_eq!(movement, MovementFactor { x: 0, y: 0 });
}
