//! Motion: how objects advance along their course in a tick, and how the
//! arena wraps round at its edges.

use vstd::prelude::*;
use crate::controller::{div_toward_zero, toward_zero, Facing, MovementFactor, UNIT};

verus! {

/// A place in the arena, each axis in millionths of a unit, the origin at
/// the centre.
#[derive(Clone, Copy, Debug, PartialEq, Eq, Structural)]
pub struct Position {
    pub x: i64,
    pub y: i64,
}

/// The course of a moving object: an offset it inherited, and the direction
/// it heads in.
#[derive(Clone, Copy, Debug, PartialEq, Eq, Structural)]
pub struct LinearMovement {
    pub movement_factor: MovementFactor,
    pub movement_direction: Facing,
}

/// An object that moves along its course.
#[derive(Clone, Copy, Debug, PartialEq, Eq, Structural)]
pub struct MovingObject {
    pub position: Position,
    pub movement: LinearMovement,
}

/// Spin about the axis that stands on the plane.
#[derive(Clone, Copy, Debug, PartialEq, Eq, Structural)]
pub struct Rotate2D {
    /// Angular speed, in tenths of a radian per second.
    pub speed: u32,
}

/// Width and height of the arena, in millionths of a unit.
#[derive(Clone, Copy, Debug, PartialEq, Eq, Structural)]
pub struct WindowSize {
    pub width: u64,
    pub height: u64,
}

/// Forward speed of a drifting object, in units per second.
pub const DRIFT_SPEED: u16 = 1;

/// `v` brought into the range of a coordinate.
pub open spec fn clamp_coordinate(v: int) -> int {
    if v < i64::MIN {
        i64::MIN as int
    } else if v > i64::MAX {
        i64::MAX as int
    } else {
        v
    }
}

/// How far an object gets along one axis in `dt_micros` microseconds: the
/// inherited offset plus the facing times the forward speed, times the time.
pub open spec fn displacement(offset: int, facing: int, forward_speed: int, dt_micros: int) -> int {
    toward_zero((offset + facing * forward_speed) * dt_micros, UNIT as int)
}

/// A coordinate after the arena of the given extent wrapped it: one extent
/// down from beyond the upper half, one extent up from beyond the lower
/// half, and unchanged in between.
pub open spec fn wrap_axis(x: int, extent: int) -> int {
    if 2 * x > extent {
        x - extent
    } else if 2 * x < -extent {
        x + extent
    } else {
        x
    }
}

impl MovingObject {
    /// The object after a tick: each coordinate advanced by its
    /// displacement, and held at the end of the coordinate range where it
    /// would pass it.
    pub open spec fn advanced(self, forward_speed: int, dt_micros: int) -> MovingObject {
        MovingObject {
            position: Position {
                x: clamp_coordinate(
                    self.position.x + displacement(
                        self.movement.movement_factor.x as int,
                        self.movement.movement_direction.x as int,
                        forward_speed,
                        dt_micros,
                    ),
                ) as i64,
                y: clamp_coordinate(
                    self.position.y + displacement(
                        self.movement.movement_factor.y as int,
                        self.movement.movement_direction.y as int,
                        forward_speed,
                        dt_micros,
                    ),
                ) as i64,
            },
            movement: self.movement,
        }
    }
}

impl Position {
    /// The position after the arena wrapped it, each axis by itself.
    pub open spec fn wrapped(self, window: WindowSize) -> Position {
        Position {
            x: wrap_axis(self.x as int, window.width as int) as i64,
            y: wrap_axis(self.y as int, window.height as int) as i64,
        }
    }
}

/// Every object of `objects` after a tick, each in its place.
pub open spec fn all_advanced(objects: Seq<MovingObject>, forward_speed: int, dt_micros: int) -> Seq<
    MovingObject,
> {
    Seq::new(objects.len(), |k: int| objects[k].advanced(forward_speed, dt_micros))
}

/// Every position of `positions` after the arena wrapped it, each in its
/// place.
pub open spec fn all_wrapped(positions: Seq<Position>, window: WindowSize) -> Seq<Position> {
    Seq::new(positions.len(), |k: int| positions[k].wrapped(window))
}

/// One coordinate advanced along its course.
pub fn advance_axis(x: i64, offset: i32, facing: i32, forward_speed: u16, dt_micros: u32) -> (moved:
    i64)
    ensures
        moved == clamp_coordinate(
            x + displacement(offset as int, facing as int, forward_speed as int, dt_micros as int),
        ),
{
    assert(-0x8000_0000 * 0x1_0000 <= (facing as int) * (forward_speed as int) <= 0x8000_0000
        * 0x1_0000) by (nonlinear_arith)
        requires
            -0x8000_0000 <= facing < 0x8000_0000,
            0 <= forward_speed < 0x1_0000,
    ;
    let per_second: i128 = (offset as i128) + (facing as i128) * (forward_speed as i128);
    assert(-0x1_0000_0000_0000 * 0x1_0000_0000 <= (per_second as int) * (dt_micros as int)
        <= 0x1_0000_0000_0000 * 0x1_0000_0000) by (nonlinear_arith)
        requires
            -0x1_0000_0000_0000 <= per_second <= 0x1_0000_0000_0000,
            0 <= dt_micros <= 0xffff_ffff,
    ;
    let scaled: i128 = per_second * (dt_micros as i128);
    let shift = div_toward_zero(scaled, 1_000_000);
    let target: i128 = (x as i128) + shift;
    if target < i64::MIN as i128 {
        i64::MIN
    } else if target > i64::MAX as i128 {
        i64::MAX
    } else {
        target as i64
    }
}

/// Advances every object by one tick at the given forward speed. Each
/// object moves by itself, so the order of the objects does not matter.
pub fn advance_all(objects: &mut Vec<MovingObject>, forward_speed: u16, dt_micros: u32)
    ensures
        final(objects)@ == all_advanced(old(objects)@, forward_speed as int, dt_micros as int),
{
    let ghost before = objects@;
    let mut k: usize = 0;
    while k < objects.len()
        invariant
            k <= objects.len(),
            objects@.len() == before.len(),
            forall|n: int|
                0 <= n < k ==> objects@[n] == (#[trigger] before[n]).advanced(
                    forward_speed as int,
                    dt_micros as int,
                ),
            forall|n: int| k <= n < before.len() ==> objects@[n] == before[n],
        decreases objects.len() - k,
    {
        let object = objects[k];
        let x = advance_axis(
            object.position.x,
            object.movement.movement_factor.x,
            object.movement.movement_direction.x,
            forward_speed,
            dt_micros,
        );
        let y = advance_axis(
            object.position.y,
            object.movement.movement_factor.y,
            object.movement.movement_direction.y,
            forward_speed,
            dt_micros,
        );
        objects.set(k, MovingObject { position: Position { x, y }, movement: object.movement });
        k += 1;
    }
    assert(objects@ =~= all_advanced(before, forward_speed as int, dt_micros as int));
}

/// Advances every drifting object by one tick: by its inherited offset plus
/// its facing at drift speed, times the time.
pub fn linear_movement(objects: &mut Vec<MovingObject>, dt_micros: u32)
    ensures
        final(objects)@ == all_advanced(old(objects)@, DRIFT_SPEED as int, dt_micros as int),
{
    advance_all(objects, DRIFT_SPEED, dt_micros);
}

/// The angle by which a spinning object turns in a tick, in millionths of
/// a radian: its angular speed times the time, rounded down.
pub fn rotate_2d(rotate: &Rotate2D, dt_micros: u32) -> (angle: u64)
    ensures
        angle == rotate.speed * dt_micros / 10,
{
    assert(0 <= (rotate.speed as int) * (dt_micros as int) <= 0xffff_ffff * 0xffff_ffff)
        by (nonlinear_arith)
        requires
            0 <= rotate.speed <= 0xffff_ffff,
            0 <= dt_micros <= 0xffff_ffff,
    ;
    (rotate.speed as u64) * (dt_micros as u64) / 10
}

/// One coordinate after the arena of the given extent wrapped it.
pub fn wrap_coordinate(x: i64, extent: u64) -> (wrapped: i64)
    ensures
        wrapped == wrap_axis(x as int, extent as int),
{
    let doubled: i128 = 2 * (x as i128);
    let extent_wide: i128 = extent as i128;
    if doubled > extent_wide {
        ((x as i128) - extent_wide) as i64
    } else if doubled < -extent_wide {
        ((x as i128) + extent_wide) as i64
    } else {
        x
    }
}

/// Wraps every listed position round the edges of the arena, each axis by
/// itself. Without a window nothing moves.
pub fn wrapping_movement(wrappers: &mut Vec<Position>, window: Option<WindowSize>)
    ensures
        window.is_none() ==> final(wrappers)@ == old(wrappers)@,
        window.is_some() ==> final(wrappers)@ == all_wrapped(old(wrappers)@, window.unwrap()),
{
    let size = match window {
        Some(size) => size,
        None => { return ; },
    };
    let ghost before = wrappers@;
    let mut k: usize = 0;
    while k < wrappers.len()
        invariant
            k <= wrappers.len(),
            wrappers@.len() == before.len(),
            forall|n: int| 0 <= n < k ==> wrappers@[n] == (#[trigger] before[n]).wrapped(size),
            forall|n: int| k <= n < before.len() ==> wrappers@[n] == before[n],
        decreases wrappers.len() - k,
    {
        let position = wrappers[k];
        let x = wrap_coordinate(position.x, size.width);
        let y = wrap_coordinate(position.y, size.height);
        wrappers.set(k, Position { x, y });
        k += 1;
    }
    assert(wrappers@ =~= all_wrapped(before, size));
}

/// What a tick does to an object depends on that object alone, not on its
/// place in the list nor on the objects around it.
pub proof fn advance_is_per_object(
    a: Seq<MovingObject>,
    b: Seq<MovingObject>,
    i: int,
    j: int,
    forward_speed: int,
    dt_micros: int,
)
    requires
        0 <= i < a.len(),
        0 <= j < b.len(),
        a[i] == b[j],
    ensures
        all_advanced(a, forward_speed, dt_micros)[i] == all_advanced(b, forward_speed, dt_micros)[j],
{
}

/// How the arena wraps a position depends on that position alone.
pub proof fn wrap_is_per_object(
    a: Seq<Position>,
    b: Seq<Position>,
    i: int,
    j: int,
    window: WindowSize,
)
    requires
        0 <= i < a.len(),
        0 <= j < b.len(),
        a[i] == b[j],
    ensures
        all_wrapped(a, window)[i] == all_wrapped(b, window)[j],
{
}

/// A coordinate within half the extent of the centre is left where it is.
pub proof fn wrap_leaves_inside_alone(x: int, extent: int)
    requires
        0 <= extent,
        -extent <= 2 * x <= extent,
    ensures
        wrap_axis(x, extent) == x,
{
}

/// A coordinate less than one extent beyond an edge comes back inside, one
/// extent from where it was.
pub proof fn wrap_brings_back_inside(x: int, extent: int)
    requires
        0 <= extent,
        -3 * extent <= 2 * x <= 3 * extent,
    ensures
        -extent <= 2 * wrap_axis(x, extent) <= extent,
        2 * x > extent ==> wrap_axis(x, extent) == x - extent,
        2 * x < -extent ==> wrap_axis(x, extent) == x + extent,
{
}

/// Wrapping twice is wrapping once, for a coordinate at most one extent
/// beyond an edge.
pub proof fn wrap_is_idempotent(x: int, extent: int)
    requires
        0 <= extent,
        -3 * extent <= 2 * x <= 3 * extent,
    ensures
        wrap_axis(wrap_axis(x, extent), extent) == wrap_axis(x, extent),
{
}

} // verus!
