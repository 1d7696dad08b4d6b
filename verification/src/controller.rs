//! Player control: turning, and the shared movement vector that thrust
//! feeds and that decays while the engine is idle.

use vstd::prelude::*;
use vstd::arithmetic::power::pow;
use crate::movement::{advance_all, all_advanced, MovingObject};
use crate::spaceship::ShipLevels;
use crate::weapon::LASER_SPEED;

verus! {

/// One whole unit in fixed-point millionths.
pub const UNIT: i32 = 1_000_000;

/// Turning rate that a held key contributes.
pub const ROTATION_SPEED: i8 = 1;

/// Thrust adds the facing direction divided by this: a step of 0.01.
pub const MOVEMENT_STEP_DIVISOR: i32 = 100;

/// Idle decay keeps this many hundredths of the vector per tick: 0.95.
pub const DECAY_PERCENT: i32 = 95;

/// The shared movement vector, each axis in millionths.
#[derive(Clone, Copy, Debug, PartialEq, Eq, Structural)]
pub struct MovementFactor {
    pub x: i32,
    pub y: i32,
}

/// A laser in flight: the movement vector it inherited when it was fired.
#[derive(Clone, Copy, Debug, PartialEq, Eq, Structural)]
pub struct Laser(pub MovementFactor);

/// The direction an object faces, each axis in millionths.
#[derive(Clone, Copy, Debug, PartialEq, Eq, Structural)]
pub struct Facing {
    pub x: i32,
    pub y: i32,
}

/// The state of the player's keys in one tick.
#[derive(Clone, Copy, Debug, PartialEq, Eq, Structural)]
pub struct PlayerInput {
    pub turn_left: bool,
    pub turn_right: bool,
    pub thrust: bool,
    pub fire: bool,
}

/// What one tick of control does to the craft.
#[derive(Clone, Copy, Debug, PartialEq, Eq, Structural)]
pub struct CraftStep {
    /// Shift along x, in millionths.
    pub dx: i64,
    /// Shift along y, in millionths.
    pub dy: i64,
}

/// `v` brought into `[-UNIT, UNIT]`.
pub open spec fn clamp_unit(v: int) -> int {
    if v < -UNIT {
        -(UNIT as int)
    } else if v > UNIT {
        UNIT as int
    } else {
        v
    }
}

/// `num / den` rounded toward zero, for a positive `den`.
pub open spec fn toward_zero(num: int, den: int) -> int {
    if num >= 0 {
        num / den
    } else {
        -((-num) / den)
    }
}

/// One axis after a tick of thrust: a hundredth of the facing is added.
pub open spec fn thrust_axis(v: int, facing: int) -> int {
    clamp_unit(v + toward_zero(facing, MOVEMENT_STEP_DIVISOR as int))
}

/// One axis after an idle tick: 95 hundredths are kept.
pub open spec fn decay_axis(v: int) -> int {
    clamp_unit(toward_zero(v * DECAY_PERCENT, 100))
}

/// The movement vector after one tick.
pub open spec fn updated(v: MovementFactor, facing: Facing, thrust: bool) -> MovementFactor {
    if thrust {
        MovementFactor {
            x: thrust_axis(v.x as int, facing.x as int) as i32,
            y: thrust_axis(v.y as int, facing.y as int) as i32,
        }
    } else {
        MovementFactor { x: decay_axis(v.x as int) as i32, y: decay_axis(v.y as int) as i32 }
    }
}

/// The movement vector after a run of ticks, each with its facing and its
/// thrust key.
pub open spec fn updated_through(v: MovementFactor, ticks: Seq<(Facing, bool)>) -> MovementFactor
    decreases ticks.len(),
{
    if ticks.len() == 0 {
        v
    } else {
        updated(updated_through(v, ticks.drop_last()), ticks.last().0, ticks.last().1)
    }
}

/// One axis after `n` idle ticks.
pub open spec fn decayed(v: int, n: nat) -> int
    decreases n,
{
    if n == 0 {
        v
    } else {
        decay_axis(decayed(v, (n - 1) as nat))
    }
}

/// The size of `v` without its sign.
pub open spec fn magnitude(v: int) -> int {
    if v >= 0 {
        v
    } else {
        -v
    }
}

/// The turn that the two keys ask for: 1 to the left, -1 to the right, 0
/// for both or neither.
pub open spec fn turn(turn_left: bool, turn_right: bool) -> int {
    (if turn_left { 1int } else { 0int }) - (if turn_right { 1int } else { 0int })
}

/// The shift of the craft in a tick of `dt_micros` microseconds:
/// the movement vector times the linear speed times the time.
pub open spec fn craft_shift(v: int, speed: int, dt_micros: int) -> int {
    toward_zero(v * speed * dt_micros, UNIT as int)
}

impl MovementFactor {
    /// Both axes lie in `[-UNIT, UNIT]`.
    pub open spec fn in_range(self) -> bool {
        -UNIT <= self.x <= UNIT && -UNIT <= self.y <= UNIT
    }

    /// The vector at rest.
    pub fn zero() -> (v: MovementFactor)
        ensures
            v == (MovementFactor { x: 0, y: 0 }),
            v.in_range(),
    {
        MovementFactor { x: 0, y: 0 }
    }
}

/// `num / den` rounded toward zero.
pub fn div_toward_zero(num: i128, den: u32) -> (q: i128)
    requires
        den > 0,
        num > i128::MIN,
    ensures
        q == toward_zero(num as int, den as int),
        magnitude(q as int) <= magnitude(num as int),
{
    if num >= 0 {
        let n: u128 = num as u128;
        let q: u128 = n / (den as u128);
        assert(q <= n) by (nonlinear_arith)
            requires
                q == n / (den as u128),
                den > 0,
        ;
        q as i128
    } else {
        let n: u128 = (-num) as u128;
        let q: u128 = n / (den as u128);
        assert(q <= n) by (nonlinear_arith)
            requires
                q == n / (den as u128),
                den > 0,
        ;
        -(q as i128)
    }
}

/// `v` brought into `[-UNIT, UNIT]`.
pub fn clamp_to_unit(v: i128) -> (c: i32)
    ensures
        c == clamp_unit(v as int),
        -UNIT <= c <= UNIT,
{
    if v < -(UNIT as i128) {
        -UNIT
    } else if v > UNIT as i128 {
        UNIT
    } else {
        v as i32
    }
}

/// What a key contributes to the turn: the turning rate while held, nothing
/// otherwise.
pub fn handle_keyboard_input(pressed: bool) -> (rate: i8)
    ensures
        rate == if pressed { ROTATION_SPEED } else { 0i8 },
{
    if pressed {
        ROTATION_SPEED
    } else {
        0
    }
}

/// Whether the craft's flames show: only while thrust is applied.
pub fn engine_fire(input: &PlayerInput) -> (visible: bool)
    ensures
        visible == input.thrust,
{
    input.thrust
}

/// The turn of the craft in one tick, in millionths of a degree, left
/// positive: the keys' turn times the level's angular speed times the time.
pub fn player_rotation(input: &PlayerInput, ship: &ShipLevels, dt_micros: u32) -> (angle: i64)
    ensures
        angle == turn(input.turn_left, input.turn_right) * 360 * dt_micros,
{
    let rotation_factor: i64 = (handle_keyboard_input(input.turn_left) as i64)
        - (handle_keyboard_input(input.turn_right) as i64);
    let rate: i64 = ship.base_ship_speed().rotation_speed as i64;
    assert(-1 <= rotation_factor <= 1);
    assert(rate == 360);
    let per_micro: i64 = rotation_factor * rate;
    assert(-360 <= per_micro <= 360);
    assert(-360 * 0x1_0000_0000 <= per_micro * (dt_micros as i64) <= 360 * 0x1_0000_0000)
        by (nonlinear_arith)
        requires
            -360 <= per_micro <= 360,
            0 <= dt_micros as i64 <= 0xffff_ffff,
    ;
    assert(rotation_factor * rate * (dt_micros as i64) == turn(input.turn_left, input.turn_right)
        * 360 * dt_micros) by (nonlinear_arith)
        requires
            rotation_factor == turn(input.turn_left, input.turn_right),
            rate == 360,
    ;
    per_micro * (dt_micros as i64)
}

/// Updates the movement vector for one tick. With thrust, a hundredth of the
/// facing direction is added; without, 95 hundredths of the vector are kept.
/// Either way each axis is then brought into `[-UNIT, UNIT]`, whatever it
/// was before.
pub fn update_movement_factor(
    user_facing_direction: Facing,
    thrust_pressed: bool,
    movement_factor: &mut MovementFactor,
)
    ensures
        *final(movement_factor) == updated(
            *old(movement_factor),
            user_facing_direction,
            thrust_pressed,
        ),
        final(movement_factor).in_range(),
{
    if thrust_pressed {
        let step_x = div_toward_zero(user_facing_direction.x as i128, 100);
        let step_y = div_toward_zero(user_facing_direction.y as i128, 100);
        movement_factor.x = clamp_to_unit(movement_factor.x as i128 + step_x);
        movement_factor.y = clamp_to_unit(movement_factor.y as i128 + step_y);
    } else {
        let kept_x = div_toward_zero(movement_factor.x as i128 * 95, 100);
        let kept_y = div_toward_zero(movement_factor.y as i128 * 95, 100);
        movement_factor.x = clamp_to_unit(kept_x);
        movement_factor.y = clamp_to_unit(kept_y);
    }
}

/// One axis of the craft's shift.
fn shift_axis(v: i32, speed: u16, dt_micros: u32) -> (d: i64)
    requires
        -UNIT <= v <= UNIT,
    ensures
        d == craft_shift(v as int, speed as int, dt_micros as int),
{
    assert(-0x1_0000 * 1_000_000 <= (v as int) * (speed as int) <= 0x1_0000 * 1_000_000)
        by (nonlinear_arith)
        requires
            -1_000_000 <= v <= 1_000_000,
            0 <= speed < 0x1_0000,
    ;
    let per_second: i128 = (v as i128) * (speed as i128);
    assert(-0x1_0000 * 1_000_000 * 0x1_0000_0000 <= (per_second as int) * (dt_micros as int)
        <= 0x1_0000 * 1_000_000 * 0x1_0000_0000) by (nonlinear_arith)
        requires
            -0x1_0000 * 1_000_000 <= per_second <= 0x1_0000 * 1_000_000,
            0 <= dt_micros <= 0xffff_ffff,
    ;
    let scaled: i128 = per_second * (dt_micros as i128);
    let q = div_toward_zero(scaled, 1_000_000);
    q as i64
}

/// One tick of control, after the craft was turned. Without a craft nothing
/// happens. With one, the movement vector is updated from the thrust key and
/// the craft's facing, and the craft shifts by the new vector times the
/// level's linear speed times the time.
pub fn player_movement_system(
    craft: Option<(Facing, ShipLevels)>,
    input: &PlayerInput,
    dt_micros: u32,
    movement_factor: &mut MovementFactor,
) -> (step: Option<CraftStep>)
    ensures
        craft.is_none() ==> step.is_none() && *final(movement_factor) == *old(movement_factor),
        craft.is_some() ==> {
            let v = updated(*old(movement_factor), craft.unwrap().0, input.thrust);
            let speed = craft.unwrap().1.linear_speed();
            &&& *final(movement_factor) == v
            &&& v.in_range()
            &&& step == Some(
                CraftStep {
                    dx: craft_shift(v.x as int, speed, dt_micros as int) as i64,
                    dy: craft_shift(v.y as int, speed, dt_micros as int) as i64,
                },
            )
        },
{
    match craft {
        None => None,
        Some((facing, ship)) => {
            update_movement_factor(facing, input.thrust, movement_factor);
            let speed = ship.base_ship_speed().movement_speed;
            let dx = shift_axis(movement_factor.x, speed, dt_micros);
            let dy = shift_axis(movement_factor.y, speed, dt_micros);
            Some(CraftStep { dx, dy })
        },
    }
}

/// Advances every laser by one tick: by the movement vector it inherited
/// when it was fired plus its facing at laser speed, times the time.
pub fn laser_movement(lasers: &mut Vec<MovingObject>, dt_micros: u32)
    ensures
        final(lasers)@ == all_advanced(old(lasers)@, LASER_SPEED as int, dt_micros as int),
{
    advance_all(lasers, LASER_SPEED, dt_micros);
}

/// Whatever the vector was and whatever the keys and facings of the ticks
/// are, after at least one tick each axis of the movement vector lies in
/// `[-UNIT, UNIT]`; a vector that starts there never leaves.
pub proof fn movement_factor_stays_in_range(v: MovementFactor, ticks: Seq<(Facing, bool)>)
    ensures
        ticks.len() > 0 ==> updated_through(v, ticks).in_range(),
        v.in_range() ==> updated_through(v, ticks).in_range(),
    decreases ticks.len(),
{
    if ticks.len() > 0 {
        movement_factor_stays_in_range(v, ticks.drop_last());
    }
}

/// One idle tick on an axis in range: the sign is kept, and the size is 95
/// hundredths of what it was, rounded down.
pub proof fn decay_step(v: int)
    requires
        -UNIT <= v <= UNIT,
    ensures
        magnitude(decay_axis(v)) == magnitude(v) * 95 / 100,
        v >= 0 ==> decay_axis(v) >= 0,
        v <= 0 ==> decay_axis(v) <= 0,
        magnitude(decay_axis(v)) <= magnitude(v),
{
    let a = magnitude(v);
    assert(0 <= a * 95 / 100 <= a) by (nonlinear_arith)
        requires
            0 <= a,
    ;
    if v < 0 {
        assert(-v * 95 == -(v * 95)) by (nonlinear_arith);
    }
}

/// Idle decay over `n` ticks, on an axis in range. The sign never flips and
/// the size never grows. The size is `0.95^n` times the initial size, up to
/// rounding: it is at most that, and less than 20 millionths below it.
pub proof fn idle_decay_is_geometric(v: int, n: nat)
    requires
        -UNIT <= v <= UNIT,
    ensures
        -UNIT <= decayed(v, n) <= UNIT,
        v >= 0 ==> decayed(v, n) >= 0,
        v <= 0 ==> decayed(v, n) <= 0,
        magnitude(decayed(v, n)) <= magnitude(v),
        magnitude(decayed(v, n)) * pow(100, n) <= magnitude(v) * pow(95, n),
        (magnitude(v) + 20) * pow(95, n) <= (magnitude(decayed(v, n)) + 20) * pow(100, n),
    decreases n,
{
    reveal(pow);
    if n == 0 {
        assert(pow(100, 0) == 1);
        assert(pow(95, 0) == 1);
    } else {
        let m = (n - 1) as nat;
        idle_decay_is_geometric(v, m);
        let w = decayed(v, m);
        decay_step(w);
        let a0 = magnitude(v);
        let a = magnitude(w);
        let b = magnitude(decay_axis(w));
        let h = pow(100, m);
        let f = pow(95, m);
        assert(pow(100, n) == 100 * h);
        assert(pow(95, n) == 95 * f);
        vstd::arithmetic::power::lemma_pow_positive(100, m);
        vstd::arithmetic::power::lemma_pow_positive(95, m);
        assert(100 * b <= 95 * a && 95 * a <= 100 * b + 99) by (nonlinear_arith)
            requires
                b == a * 95 / 100,
        ;
        assert(b * (100 * h) <= a0 * (95 * f)) by (nonlinear_arith)
            requires
                100 * b <= 95 * a,
                a * h <= a0 * f,
                h > 0,
                f > 0,
                a0 >= 0,
                a >= 0,
                b >= 0,
        ;
        assert((a0 + 20) * (95 * f) <= (b + 20) * (100 * h)) by (nonlinear_arith)
            requires
                95 * a <= 100 * b + 99,
                (a0 + 20) * f <= (a + 20) * h,
                h > 0,
                f > 0,
                a0 >= 0,
                a >= 0,
                b >= 0,
        ;
    }
}

/// No tick of the run has thrust.
pub open spec fn all_idle(ticks: Seq<(Facing, bool)>) -> bool {
    forall|k: int| 0 <= k < ticks.len() ==> !ticks[k].1
}

/// The square of the vector's length.
pub open spec fn length_squared(v: MovementFactor) -> int {
    v.x * v.x + v.y * v.y
}

/// A run of `n` ticks without thrust, from a vector in range: each axis
/// decays by itself, whatever the craft faces, so each is `0.95^n` times
/// what it was, up to the rounding that `idle_decay_is_geometric` bounds;
/// and the vector's length is at most `0.95^n` times what it was.
pub proof fn idle_run_decays_vector(v: MovementFactor, ticks: Seq<(Facing, bool)>)
    requires
        v.in_range(),
        all_idle(ticks),
    ensures
        updated_through(v, ticks).x == decayed(v.x as int, ticks.len()),
        updated_through(v, ticks).y == decayed(v.y as int, ticks.len()),
        length_squared(updated_through(v, ticks)) * (pow(100, ticks.len()) * pow(
            100,
            ticks.len(),
        )) <= length_squared(v) * (pow(95, ticks.len()) * pow(95, ticks.len())),
    decreases ticks.len(),
{
    let n = ticks.len();
    if n > 0 {
        let front = ticks.drop_last();
        assert forall|k: int| 0 <= k < front.len() implies !front[k].1 by {
            assert(front[k] == ticks[k]);
        }
        idle_run_decays_vector(v, front);
        idle_decay_is_geometric(v.x as int, front.len());
        idle_decay_is_geometric(v.y as int, front.len());
        decay_step(decayed(v.x as int, front.len()));
        decay_step(decayed(v.y as int, front.len()));
    }
    idle_decay_is_geometric(v.x as int, n);
    idle_decay_is_geometric(v.y as int, n);
    let after = updated_through(v, ticks);
    let h = pow(100, n);
    let f = pow(95, n);
    vstd::arithmetic::power::lemma_pow_positive(100, n);
    vstd::arithmetic::power::lemma_pow_positive(95, n);
    let ax = magnitude(after.x as int);
    let ay = magnitude(after.y as int);
    let bx = magnitude(v.x as int);
    let by = magnitude(v.y as int);
    assert(after.x * after.x == ax * ax && after.y * after.y == ay * ay) by (nonlinear_arith)
        requires
            ax == magnitude(after.x as int),
            ay == magnitude(after.y as int),
    ;
    assert(v.x * v.x == bx * bx && v.y * v.y == by * by) by (nonlinear_arith)
        requires
            bx == magnitude(v.x as int),
            by == magnitude(v.y as int),
    ;
    assert((ax * ax) * (h * h) <= (bx * bx) * (f * f)) by (nonlinear_arith)
        requires
            0 <= ax * h <= bx * f,
    ;
    assert((ay * ay) * (h * h) <= (by * by) * (f * f)) by (nonlinear_arith)
        requires
            0 <= ay * h <= by * f,
    ;
    assert((ax * ax + ay * ay) * (h * h) <= (bx * bx + by * by) * (f * f)) by (nonlinear_arith)
        requires
            (ax * ax) * (h * h) <= (bx * bx) * (f * f),
            (ay * ay) * (h * h) <= (by * by) * (f * f),
    ;
}

} // verus!
