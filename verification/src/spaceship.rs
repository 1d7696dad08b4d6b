//! The player's craft: its levels, its destruction and its return.

use vstd::prelude::*;
use bevy::transform::components::Transform;
use crate::collisions::{
    impact_removes_craft_only, ship_meteor_events, ship_removed, single_impact_single_event,
    PlayerBody,
};
use crate::controller::MovementFactor;
use crate::lives::{Lives, INITIAL_LIVES};

verus! {

/// Level of the craft.
#[derive(Clone, Copy, Debug, PartialEq, Eq, Structural)]
pub enum ShipLevels {
    Initial,
    Mid,
    Best,
}

/// Speeds of a craft.
#[derive(Clone, Copy, Debug, PartialEq, Eq, Structural)]
pub struct BaseShipSpeed {
    /// Linear speed, in units per second.
    pub movement_speed: u16,
    /// Angular speed, in degrees per second.
    pub rotation_speed: u16,
}

/// A capsule: the collision shape of a craft, in whole units.
#[derive(Clone, Copy, Debug, PartialEq, Eq, Structural)]
pub struct CapsuleShape {
    pub height: u32,
    pub radius: u32,
}

impl ShipLevels {
    /// Linear speed of the level, in units per second.
    pub open spec fn linear_speed(self) -> int {
        match self {
            ShipLevels::Initial => 200,
            ShipLevels::Mid => 350,
            ShipLevels::Best => 500,
        }
    }

    /// Sprite index of the craft.
    pub fn base_atlas_index(&self) -> (index: usize)
        ensures
            index == match *self {
                ShipLevels::Initial => 200usize,
                ShipLevels::Mid => 207usize,
                ShipLevels::Best => 214usize,
            },
    {
        match self {
            ShipLevels::Initial => 200,
            ShipLevels::Mid => 207,
            ShipLevels::Best => 214,
        }
    }

    /// Sprite index of the icon that stands for one life.
    pub fn life_atlas_index(&self) -> (index: usize)
        ensures
            index == match *self {
                ShipLevels::Initial => 188usize,
                ShipLevels::Mid => 192usize,
                ShipLevels::Best => 196usize,
            },
    {
        match self {
            ShipLevels::Initial => 188,
            ShipLevels::Mid => 192,
            ShipLevels::Best => 196,
        }
    }

    /// The levels, lowest first.
    pub fn all_ships() -> (ships: Vec<ShipLevels>)
        ensures
            ships@ == seq![ShipLevels::Initial, ShipLevels::Mid, ShipLevels::Best],
    {
        let mut ships: Vec<ShipLevels> = Vec::new();
        ships.push(ShipLevels::Initial);
        ships.push(ShipLevels::Mid);
        ships.push(ShipLevels::Best);
        assert(ships@ =~= seq![ShipLevels::Initial, ShipLevels::Mid, ShipLevels::Best]);
        ships
    }

    /// Collision shape, the same at every level.
    pub fn collider(&self) -> (shape: CapsuleShape)
        ensures
            shape == (CapsuleShape { height: 40, radius: 10 }),
    {
        CapsuleShape { height: 40, radius: 10 }
    }

    /// Speeds of the level: a full turn per second, and a linear speed that
    /// grows with the level.
    pub fn base_ship_speed(&self) -> (speed: BaseShipSpeed)
        ensures
            speed.rotation_speed == 360,
            speed.movement_speed == self.linear_speed(),
    {
        match self {
            ShipLevels::Initial => BaseShipSpeed { movement_speed: 200, rotation_speed: 360 },
            ShipLevels::Mid => BaseShipSpeed { movement_speed: 350, rotation_speed: 360 },
            ShipLevels::Best => BaseShipSpeed { movement_speed: 500, rotation_speed: 360 },
        }
    }
}

/// Record of the craft destroyed by a meteor.
pub struct ShipDestroyed {
    pub destroyed_at: Transform,
}

/// A thrust flame attached to the craft.
#[derive(Clone, Copy, Debug, PartialEq, Eq, Structural)]
pub struct EngineFire {
    /// Offset from the craft, in whole units.
    pub x: i32,
    pub y: i32,
    pub z: i32,
    pub atlas_index: usize,
    pub flip_y: bool,
    /// Flames stay hidden until thrust is applied.
    pub visible: bool,
}

/// A craft to be spawned, with its flames.
#[derive(Clone, Copy, Debug, PartialEq, Eq, Structural)]
pub struct ShipBundle {
    /// Where it appears, in whole units.
    pub x: i32,
    pub y: i32,
    pub ship_type: ShipLevels,
    pub atlas_index: usize,
    /// Radius of its circular collision shape, in whole units.
    pub collider_radius: u32,
    /// Whether the craft wraps round the edges of the arena.
    pub wrapping: bool,
    pub engine_fire: EngineFire,
    pub right_thruster: EngineFire,
    pub left_thruster: EngineFire,
}

/// A hidden, flipped flame at the given offset.
pub open spec fn flame(x: i32, y: i32, atlas_index: usize) -> EngineFire {
    EngineFire { x, y, z: 1, atlas_index, flip_y: true, visible: false }
}

/// A craft of the first level at the origin of the arena, with its three
/// flames.
pub open spec fn fresh_ship(wrapping: bool) -> ShipBundle {
    ShipBundle {
        x: 0,
        y: 0,
        ship_type: ShipLevels::Initial,
        atlas_index: 200,
        collider_radius: 32,
        wrapping,
        engine_fire: flame(0, -60i32, 74),
        right_thruster: flame(16, -40i32, 75),
        left_thruster: flame(-16i32, -40i32, 75),
    }
}

/// Builds `fresh_ship`.
pub fn new_ship(wrapping: bool) -> (ship: ShipBundle)
    ensures
        ship == fresh_ship(wrapping),
{
    ShipBundle {
        x: 0,
        y: 0,
        ship_type: ShipLevels::Initial,
        atlas_index: ShipLevels::Initial.base_atlas_index(),
        collider_radius: 32,
        wrapping,
        engine_fire: EngineFire {
            x: 0,
            y: -60,
            z: 1,
            atlas_index: 74,
            flip_y: true,
            visible: false,
        },
        right_thruster: EngineFire {
            x: 16,
            y: -40,
            z: 1,
            atlas_index: 75,
            flip_y: true,
            visible: false,
        },
        left_thruster: EngineFire {
            x: -16,
            y: -40,
            z: 1,
            atlas_index: 75,
            flip_y: true,
            visible: false,
        },
    }
}

/// The placements at which the events of `events` took place, in order.
pub open spec fn destruction_sites(events: Seq<ShipDestroyed>) -> Seq<Transform> {
    Seq::new(events.len(), |k: int| events[k].destroyed_at)
}

/// The movement vector after `n` destructions were handled: at rest if any
/// was.
pub open spec fn movement_after_destructions(movement: MovementFactor, n: nat) -> MovementFactor {
    if n > 0 {
        MovementFactor { x: 0, y: 0 }
    } else {
        movement
    }
}

/// Handles the destructions of the craft that this tick brought. While the
/// sprites or the effect are not ready nothing is handled and nothing
/// changes. Otherwise every event takes one life (the counter stops at
/// zero), brings the movement vector to rest, and asks for one explosion at
/// the place of the destruction; the places are returned in the order of the
/// events.
pub fn player_ship_destroyed_event_handler(
    events: &Vec<ShipDestroyed>,
    assets_ready: bool,
    effect_ready: bool,
    ship_movement: &mut MovementFactor,
    lives: &mut Lives,
) -> (effects: Vec<Transform>)
    ensures
        !(assets_ready && effect_ready) ==> {
            &&& effects@.len() == 0
            &&& *final(ship_movement) == *old(ship_movement)
            &&& *final(lives) == *old(lives)
        },
        assets_ready && effect_ready ==> {
            &&& effects@ == destruction_sites(events@)
            &&& *final(ship_movement) == movement_after_destructions(
                *old(ship_movement),
                events@.len(),
            )
            &&& *final(lives) == old(lives).after_losses(events@.len())
        },
{
    let mut effects: Vec<Transform> = Vec::new();
    if !assets_ready || !effect_ready {
        return effects;
    }
    let mut k: usize = 0;
    while k < events.len()
        invariant
            k <= events.len(),
            effects@ == destruction_sites(events@.take(k as int)),
            *ship_movement == movement_after_destructions(*old(ship_movement), k as nat),
            *lives == old(lives).after_losses(k as nat),
        decreases events.len() - k,
    {
        effects.push(events[k].destroyed_at);
        *ship_movement = MovementFactor::zero();
        lives.remove_life();
        k += 1;
        assert(effects@ =~= destruction_sites(events@.take(k as int)));
    }
    assert(events@.take(k as int) =~= events@);
    effects
}

/// A new craft is due when the life counter has just changed, some life is
/// left, the counter is not at its initial value, and the sprites are
/// loaded.
pub open spec fn respawns(lives_changed: bool, lives: Lives, assets_ready: bool) -> bool {
    lives_changed && lives.0 != 0 && lives.0 != INITIAL_LIVES && assets_ready
}

/// Where the craft stands in its cycle of destruction and return.
#[derive(Clone, Copy, Debug, PartialEq, Eq, Structural)]
pub enum CraftState {
    /// The craft is in the arena.
    Alive,
    /// The craft is gone and its return is not due yet.
    Destroyed,
    /// The craft is gone and a new one is due in this tick.
    Respawning,
    /// The craft is gone and no life is left: the end, from which nothing
    /// leads back.
    GameOver,
}

/// The state of the craft, from whether it is in the arena, the life
/// counter, whether the counter has just changed, and whether the sprites
/// are loaded.
pub open spec fn state_of(
    craft_present: bool,
    lives_changed: bool,
    lives: Lives,
    assets_ready: bool,
) -> CraftState {
    if craft_present {
        CraftState::Alive
    } else if lives.0 == 0 {
        CraftState::GameOver
    } else if respawns(lives_changed, lives, assets_ready) {
        CraftState::Respawning
    } else {
        CraftState::Destroyed
    }
}

/// Computes `state_of`.
pub fn craft_state(
    craft_present: bool,
    lives_changed: bool,
    lives: &Lives,
    assets_ready: bool,
) -> (state: CraftState)
    ensures
        state == state_of(craft_present, lives_changed, *lives, assets_ready),
{
    if craft_present {
        CraftState::Alive
    } else if lives.0 == 0 {
        CraftState::GameOver
    } else if lives_changed && lives.0 != INITIAL_LIVES && assets_ready {
        CraftState::Respawning
    } else {
        CraftState::Destroyed
    }
}

/// Brings the craft back after a life was lost. When `respawns` holds, the
/// result is a craft of the first level at the origin, and the movement
/// vector is at rest; otherwise there is no craft and nothing changes.
pub fn spawn_ship_after_ship_destroyed(
    lives_changed: bool,
    lives: &Lives,
    assets_ready: bool,
    ship_movement: &mut MovementFactor,
) -> (spawn: Option<ShipBundle>)
    ensures
        respawns(lives_changed, *lives, assets_ready) ==> {
            &&& spawn == Some(fresh_ship(false))
            &&& *final(ship_movement) == (MovementFactor { x: 0, y: 0 })
        },
        !respawns(lives_changed, *lives, assets_ready) ==> {
            &&& spawn.is_none()
            &&& *final(ship_movement) == *old(ship_movement)
        },
        spawn.is_some() <==> state_of(false, lives_changed, *lives, assets_ready)
            == CraftState::Respawning,
{
    if !lives_changed || lives.0 == 0 || lives.0 == INITIAL_LIVES {
        return None;
    }
    if !assets_ready {
        return None;
    }
    *ship_movement = MovementFactor::zero();
    Some(new_ship(false))
}

/// The destruction of the craft, handled once: exactly one life is taken
/// while any is left, the movement vector comes to rest, and a new craft is
/// due exactly when a life is left afterwards and the counter is not at its
/// initial value; that craft is of the first level.
pub proof fn destruction_takes_one_life(lives: Lives, movement: MovementFactor)
    requires
        lives.0 > 0,
    ensures
        lives.after_losses(1).0 == lives.0 - 1,
        movement_after_destructions(movement, 1) == (MovementFactor { x: 0, y: 0 }),
        respawns(true, lives.after_losses(1), true) <==> (lives.after_losses(1).0 > 0
            && lives.after_losses(1).0 != INITIAL_LIVES),
        lives.0 <= INITIAL_LIVES ==> (respawns(true, lives.after_losses(1), true) <==> lives.0
            > 1),
        fresh_ship(false).ship_type == ShipLevels::Initial,
        fresh_ship(false).x == 0 && fresh_ship(false).y == 0,
        state_of(false, true, lives.after_losses(1), true) == if lives.0 == 1 {
            CraftState::GameOver
        } else if lives.0 - 1 == INITIAL_LIVES {
            CraftState::Destroyed
        } else {
            CraftState::Respawning
        },
{
}

/// The one craft of the arena overlaps one meteor: the pass removes the
/// craft and records one destruction, at the craft's placement; handling it
/// takes exactly one life, brings the movement vector to rest and asks for
/// one explosion there; and a new craft is then due exactly when a life is
/// left and the counter is not at its initial value.
pub proof fn impact_costs_one_life(
    players: Seq<PlayerBody>,
    meteors: Seq<u64>,
    m: int,
    lives: Lives,
    movement: MovementFactor,
)
    requires
        players.len() == 1,
        0 <= m < meteors.len(),
        players[0].touches(meteors[m]),
        forall|j: int| 0 <= j < meteors.len() && j != m ==> !players[0].touches(meteors[j]),
        lives.0 > 0,
    ensures
        ship_removed(players, meteors, players[0].entity),
        ship_meteor_events(players, meteors) == seq![players[0].destroyed()],
        destruction_sites(ship_meteor_events(players, meteors)) == seq![players[0].transform],
        lives.after_losses(ship_meteor_events(players, meteors).len()).0 == lives.0 - 1,
        movement_after_destructions(movement, ship_meteor_events(players, meteors).len()) == (
            MovementFactor { x: 0, y: 0 }),
        respawns(true, lives.after_losses(ship_meteor_events(players, meteors).len()), true) <==> (
            lives.0 > 1 && lives.0 - 1 != INITIAL_LIVES),
{
    impact_removes_craft_only(players, meteors, 0, m);
    single_impact_single_event(players[0], meteors, m);
    assert(players.drop_last().len() == 0);
    assert(players.last() == players[0]);
    assert(ship_meteor_events(players.drop_last(), meteors) == Seq::<ShipDestroyed>::empty());
    assert(Seq::<ShipDestroyed>::empty() + seq![players[0].destroyed()] =~= seq![
        players[0].destroyed(),
    ]);
    assert(destruction_sites(seq![players[0].destroyed()]) =~= seq![players[0].transform]);
}

/// Losses add up: `n` crafts lost and then `k` more leave the counter where
/// `n + k` losses leave it, and the counter never grows.
pub proof fn losses_accumulate(lives: Lives, n: nat, k: nat)
    ensures
        lives.after_losses(n).after_losses(k) == lives.after_losses(n + k),
        lives.after_losses(n).0 <= lives.0,
{
}

/// Once no life is left, none comes back and no craft is spawned, whatever
/// events follow.
pub proof fn game_over_is_final(
    lives: Lives,
    losses: nat,
    lives_changed: bool,
    assets_ready: bool,
)
    requires
        lives.game_over(),
    ensures
        lives.after_losses(losses).game_over(),
        !respawns(lives_changed, lives.after_losses(losses), assets_ready),
        state_of(false, lives_changed, lives.after_losses(losses), assets_ready)
            == CraftState::GameOver,
{
}

} // verus!
