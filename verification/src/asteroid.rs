//! Meteors: the drifting hazards of the arena and their three sizes.

use vstd::prelude::*;
use bevy::transform::components::Transform;
use crate::controller::{MovementFactor, UNIT};
use crate::movement::Rotate2D;

verus! {

/// Size of a meteor.
#[derive(Clone, Copy, Debug, PartialEq, Eq, Structural)]
pub enum MeteorType {
    Big,
    Medium,
    Small,
}

/// Three draws of chance for a new meteor, each a fraction of one in
/// millionths.
#[derive(Clone, Copy, Debug, PartialEq, Eq, Structural)]
pub struct MeteorDraws {
    pub x: u32,
    pub y: u32,
    pub rotation: u32,
}

/// A meteor to be spawned.
pub struct MeteorBundle {
    pub meteor_type: MeteorType,
    /// Radius of its circular collision shape, in whole units.
    pub collider_radius: u32,
    pub transform: Transform,
    pub atlas_index: usize,
    /// The offset it drifts by, in millionths of a unit per second.
    pub movement_factor: MovementFactor,
    /// The direction it heads in, as a fraction of a full turn in
    /// millionths, counted from straight up.
    pub rotation: u32,
    pub spin: Rotate2D,
    /// Meteors wrap round the edges of the arena.
    pub wrapping: bool,
}

impl MeteorType {
    /// Top speed along an axis, in tenths of a unit per second: smaller
    /// meteors are faster.
    pub open spec fn base_speed(self) -> int {
        match self {
            MeteorType::Big => 10,
            MeteorType::Medium => 12,
            MeteorType::Small => 14,
        }
    }

    /// Radius of the collision shape, in whole units.
    pub open spec fn radius(self) -> int {
        match self {
            MeteorType::Big => 42,
            MeteorType::Medium => 21,
            MeteorType::Small => 14,
        }
    }

    /// Sprite index.
    pub open spec fn sprite(self) -> int {
        match self {
            MeteorType::Big => 163,
            MeteorType::Medium => 167,
            MeteorType::Small => 169,
        }
    }

    /// Spin, in tenths of a radian per second: smaller meteors spin faster.
    pub open spec fn spin_rate(self) -> int {
        match self {
            MeteorType::Big => 13,
            MeteorType::Medium => 16,
            MeteorType::Small => 20,
        }
    }

    /// The drift along one axis that a draw gives: that fraction of the
    /// size's top speed, in millionths of a unit per second.
    pub open spec fn drift(self, draw: int) -> int {
        draw * self.base_speed() / 10
    }

    /// Computes `base_speed`.
    pub fn base_speed_tenths(&self) -> (tenths: u32)
        ensures
            tenths == self.base_speed(),
    {
        match self {
            MeteorType::Big => 10,
            MeteorType::Medium => 12,
            MeteorType::Small => 14,
        }
    }

    /// Computes `radius`.
    pub fn collider_radius(&self) -> (radius: u32)
        ensures
            radius == self.radius(),
    {
        match self {
            MeteorType::Big => 42,
            MeteorType::Medium => 21,
            MeteorType::Small => 14,
        }
    }

    /// Computes `sprite`.
    pub fn atlas_index(&self) -> (index: usize)
        ensures
            index == self.sprite(),
    {
        match self {
            MeteorType::Big => 163,
            MeteorType::Medium => 167,
            MeteorType::Small => 169,
        }
    }

    /// Computes `spin_rate`.
    pub fn spin_tenths(&self) -> (tenths: u32)
        ensures
            tenths == self.spin_rate(),
    {
        match self {
            MeteorType::Big => 13,
            MeteorType::Medium => 16,
            MeteorType::Small => 20,
        }
    }
}

impl MeteorDraws {
    /// Each draw is a fraction below one.
    pub open spec fn valid(self) -> bool {
        self.x < UNIT && self.y < UNIT && self.rotation < UNIT
    }

    /// Whether each draw is a fraction below one.
    pub fn is_valid(&self) -> (ok: bool)
        ensures
            ok == self.valid(),
    {
        self.x < UNIT as u32 && self.y < UNIT as u32 && self.rotation < UNIT as u32
    }
}

/// The meteor of the given size that the draws give, at the given
/// placement.
pub open spec fn meteor_of(meteor_type: MeteorType, transform: Transform, draws: MeteorDraws)
    -> MeteorBundle {
    MeteorBundle {
        meteor_type,
        collider_radius: meteor_type.radius() as u32,
        transform,
        atlas_index: meteor_type.sprite() as usize,
        movement_factor: MovementFactor {
            x: meteor_type.drift(draws.x as int) as i32,
            y: meteor_type.drift(draws.y as int) as i32,
        },
        rotation: draws.rotation,
        spin: Rotate2D { speed: meteor_type.spin_rate() as u32 },
        wrapping: true,
    }
}

impl MeteorBundle {
    /// A meteor of the given size: its shape, sprite and spin are those of
    /// the size, its drift along each axis is the drawn fraction of the
    /// size's top speed, and it heads in the drawn direction.
    pub fn of_type(meteor_type: MeteorType, transform: Transform, draws: MeteorDraws) -> (bundle:
        MeteorBundle)
        requires
            draws.valid(),
        ensures
            bundle == meteor_of(meteor_type, transform, draws),
            0 <= bundle.movement_factor.x < 2 * UNIT,
            0 <= bundle.movement_factor.y < 2 * UNIT,
    {
        let speed: u64 = meteor_type.base_speed_tenths() as u64;
        assert(10 <= speed <= 14);
        assert((draws.x as u64) * speed <= 14 * 1_000_000 && (draws.y as u64) * speed <= 14
            * 1_000_000) by (nonlinear_arith)
            requires
                draws.x < 1_000_000,
                draws.y < 1_000_000,
                speed <= 14,
        ;
        let x: u64 = (draws.x as u64) * speed / 10;
        let y: u64 = (draws.y as u64) * speed / 10;
        MeteorBundle {
            meteor_type,
            collider_radius: meteor_type.collider_radius(),
            transform,
            atlas_index: meteor_type.atlas_index(),
            movement_factor: MovementFactor { x: x as i32, y: y as i32 },
            rotation: draws.rotation,
            spin: Rotate2D { speed: meteor_type.spin_tenths() },
            wrapping: true,
        }
    }

    /// A big meteor.
    pub fn big(transform: Transform, draws: MeteorDraws) -> (bundle: MeteorBundle)
        requires
            draws.valid(),
        ensures
            bundle == meteor_of(MeteorType::Big, transform, draws),
    {
        MeteorBundle::of_type(MeteorType::Big, transform, draws)
    }

    /// A medium meteor.
    pub fn medium(transform: Transform, draws: MeteorDraws) -> (bundle: MeteorBundle)
        requires
            draws.valid(),
        ensures
            bundle == meteor_of(MeteorType::Medium, transform, draws),
    {
        MeteorBundle::of_type(MeteorType::Medium, transform, draws)
    }

    /// A small meteor.
    pub fn small(transform: Transform, draws: MeteorDraws) -> (bundle: MeteorBundle)
        requires
            draws.valid(),
        ensures
            bundle == meteor_of(MeteorType::Small, transform, draws),
    {
        MeteorBundle::of_type(MeteorType::Small, transform, draws)
    }
}

} // verus!
