//! The craft's weapon: a cooldown between shots and the laser each shot
//! launches.

use vstd::prelude::*;
use bevy::transform::components::Transform;
use crate::controller::{Laser, MovementFactor};

verus! {

/// Time that must pass after a shot before the next, in nanoseconds.
pub const COOLDOWN_NANOS: u128 = 200_000_000;

/// Forward speed of a laser, in units per second.
pub const LASER_SPEED: u16 = 1000;

/// Sprite index of a laser.
pub const LASER_ATLAS_INDEX: usize = 105;

/// The weapon's state: when it last fired, in nanoseconds of game time.
#[derive(Clone, Copy, Debug)]
pub struct Weapon {
    pub last_shot: Option<u128>,
}

/// A laser to be spawned.
pub struct LaserSpawn {
    /// Placement of the craft at the moment of firing.
    pub transform: Transform,
    /// The movement vector as it was at the moment of firing.
    pub laser: Laser,
    /// Speed along the craft's facing, in units per second.
    pub forward_speed: u16,
    pub atlas_index: usize,
}

/// A shot is allowed if none was fired yet, or more than the cooldown has
/// passed since the last one.
pub open spec fn can_shoot(last_shot: Option<u128>, now: u128) -> bool {
    match last_shot {
        None => true,
        Some(shot) => now - shot > COOLDOWN_NANOS,
    }
}

/// Whether this tick launches a laser.
pub open spec fn fires(
    weapon: Weapon,
    now: u128,
    fire_pressed: bool,
    assets_ready: bool,
    craft: Option<Transform>,
) -> bool {
    assets_ready && craft.is_some() && fire_pressed && can_shoot(weapon.last_shot, now)
}

/// The weapon after a tick: the time of the shot is recorded if a laser was
/// launched, and nothing changes otherwise.
pub open spec fn weapon_after(
    weapon: Weapon,
    now: u128,
    fire_pressed: bool,
    assets_ready: bool,
    craft: Option<Transform>,
) -> Weapon {
    if fires(weapon, now, fire_pressed, assets_ready, craft) {
        Weapon { last_shot: Some(now) }
    } else {
        weapon
    }
}

/// One tick as the weapon sees it: the time, and what decides a shot.
pub struct Attempt {
    pub now: u128,
    pub fire_pressed: bool,
    pub assets_ready: bool,
    pub craft: Option<Transform>,
}

/// The weapon after a run of ticks.
pub open spec fn weapon_through(weapon: Weapon, attempts: Seq<Attempt>) -> Weapon
    decreases attempts.len(),
{
    if attempts.len() == 0 {
        weapon
    } else {
        weapon_after(
            weapon_through(weapon, attempts.drop_last()),
            attempts.last().now,
            attempts.last().fire_pressed,
            attempts.last().assets_ready,
            attempts.last().craft,
        )
    }
}

/// The times at which a run of ticks launched a laser, in order.
pub open spec fn launches(weapon: Weapon, attempts: Seq<Attempt>) -> Seq<u128>
    decreases attempts.len(),
{
    if attempts.len() == 0 {
        Seq::empty()
    } else if fires(
        weapon_through(weapon, attempts.drop_last()),
        attempts.last().now,
        attempts.last().fire_pressed,
        attempts.last().assets_ready,
        attempts.last().craft,
    ) {
        launches(weapon, attempts.drop_last()).push(attempts.last().now)
    } else {
        launches(weapon, attempts.drop_last())
    }
}

/// The clock of the ticks never runs backwards.
pub open spec fn in_time_order(attempts: Seq<Attempt>) -> bool {
    forall|i: int, j: int| 0 <= i <= j < attempts.len() ==> attempts[i].now <= attempts[j].now
}

impl Weapon {
    /// A weapon that has not fired yet.
    pub fn new() -> (weapon: Weapon)
        ensures
            weapon.last_shot.is_none(),
    {
        Weapon { last_shot: None }
    }

    /// Whether the cooldown allows a shot at `now`.
    pub fn ready(&self, now: u128) -> (ok: bool)
        ensures
            ok == can_shoot(self.last_shot, now),
    {
        match self.last_shot {
            None => true,
            Some(shot) => now > shot && now - shot > COOLDOWN_NANOS,
        }
    }
}

/// One tick of the weapon. A laser is launched exactly when the sprites are
/// loaded, there is a craft, fire is held and the cooldown allows it; the
/// laser takes the craft's placement and a frozen copy of the movement
/// vector, and the time of the shot is recorded. Otherwise nothing changes.
pub fn weapon_system(
    weapon: &mut Weapon,
    now: u128,
    fire_pressed: bool,
    assets_ready: bool,
    craft: Option<Transform>,
    movement_factor: &MovementFactor,
) -> (spawn: Option<LaserSpawn>)
    ensures
        fires(*old(weapon), now, fire_pressed, assets_ready, craft) ==> spawn == Some(
            LaserSpawn {
                transform: craft.unwrap(),
                laser: Laser(*movement_factor),
                forward_speed: LASER_SPEED,
                atlas_index: LASER_ATLAS_INDEX,
            },
        ),
        !fires(*old(weapon), now, fire_pressed, assets_ready, craft) ==> spawn.is_none(),
        *final(weapon) == weapon_after(*old(weapon), now, fire_pressed, assets_ready, craft),
{
    if !assets_ready {
        return None;
    }
    let transform = match craft {
        Some(transform) => transform,
        None => { return None; },
    };
    if fire_pressed && weapon.ready(now) {
        weapon.last_shot = Some(now);
        Some(
            LaserSpawn {
                transform,
                laser: Laser(*movement_factor),
                forward_speed: LASER_SPEED,
                atlas_index: LASER_ATLAS_INDEX,
            },
        )
    } else {
        None
    }
}

/// After a shot at `first`, an attempt at a later time `second` launches a
/// laser exactly when more than the cooldown lies between the two, however
/// many attempts were made in between: a second laser never follows the
/// first within the cooldown.
pub proof fn cooldown_spaces_shots(
    weapon: Weapon,
    first: u128,
    second: u128,
    craft: Transform,
    again: Transform,
)
    requires
        first <= second,
        fires(weapon, first, true, true, Some(craft)),
    ensures
        weapon_after(weapon, first, true, true, Some(craft)).last_shot == Some(first),
        fires(
            weapon_after(weapon, first, true, true, Some(craft)),
            second,
            true,
            true,
            Some(again),
        ) <==> second - first > COOLDOWN_NANOS,
{
}

/// An attempt that launches nothing leaves the cooldown running from the
/// last shot: it neither restarts nor shortens it.
pub proof fn failed_attempt_keeps_cooldown(
    weapon: Weapon,
    now: u128,
    fire_pressed: bool,
    assets_ready: bool,
    craft: Option<Transform>,
)
    requires
        !fires(weapon, now, fire_pressed, assets_ready, craft),
    ensures
        weapon_after(weapon, now, fire_pressed, assets_ready, craft) == weapon,
{
}

/// Over any run of ticks whose clock never runs backwards, whatever the
/// keys, the craft and the sprites do: any two lasers are launched more
/// than the cooldown apart, and every one of them more than the cooldown
/// after the shot that the weapon had fired before the run. So no window
/// of 200 ms sees two launches.
pub proof fn launches_are_spaced(weapon: Weapon, attempts: Seq<Attempt>)
    requires
        in_time_order(attempts),
    ensures
        forall|i: int, j: int|
            0 <= i < j < launches(weapon, attempts).len() ==> launches(weapon, attempts)[j]
                - launches(weapon, attempts)[i] > COOLDOWN_NANOS,
        forall|j: int|
            weapon.last_shot.is_some() && 0 <= j < launches(weapon, attempts).len() ==> launches(
                weapon,
                attempts,
            )[j] - weapon.last_shot.unwrap() > COOLDOWN_NANOS,
        forall|j: int|
            0 <= j < launches(weapon, attempts).len() && attempts.len() > 0 ==> launches(
                weapon,
                attempts,
            )[j] <= attempts.last().now,
        weapon_through(weapon, attempts).last_shot == if launches(weapon, attempts).len() > 0 {
            Some(launches(weapon, attempts).last())
        } else {
            weapon.last_shot
        },
    decreases attempts.len(),
{
    if attempts.len() > 0 {
        let front = attempts.drop_last();
        let last = attempts.last();
        assert forall|i: int, j: int| 0 <= i <= j < front.len() implies front[i].now
            <= front[j].now by {
            assert(front[i] == attempts[i] && front[j] == attempts[j]);
        }
        launches_are_spaced(weapon, front);
        let earlier = launches(weapon, front);
        if front.len() > 0 {
            assert(front.last() == attempts[attempts.len() - 2]);
            assert(front.last().now <= last.now);
        }
        let all = launches(weapon, attempts);
        assert forall|i: int, j: int| 0 <= i < j < all.len() implies all[j] - all[i]
            > COOLDOWN_NANOS by {
            if j < earlier.len() {
                assert(all[j] == earlier[j] && all[i] == earlier[i]);
            } else {
                assert(all[i] == earlier[i]);
                assert(earlier[i] <= earlier.last());
            }
        }
    }
}

} // verus!
