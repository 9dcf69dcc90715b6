//! Fixed-point angles, lengths, durations and directions.
//!
//! Angles are whole thousandths of an arc-second, so that a full turn is an
//! exact integer. Lengths are whole thousandths of a world unit, durations
//! whole microseconds, and a sine or cosine is given in millionths.

use vstd::prelude::*;
use vstd::arithmetic::div_mod::lemma_fundamental_div_mod;
use vstd::arithmetic::div_mod::lemma_fundamental_div_mod_converse;

verus! {

/// Angle units in a full turn.
pub const FULL_TURN: i64 = 1_296_000_000;

/// Angle units in a quarter turn.
pub const QUARTER_TURN: i64 = 324_000_000;

/// The value that stands for a sine or cosine of one.
pub const HEADING_UNIT: i32 = 1_000_000;

/// Duration units in a second.
pub const MICROS_PER_SECOND: i64 = 1_000_000;

/// The angle in `[0, FULL_TURN)` that points the same way as `angle`.
pub open spec fn wrap_turn(angle: int) -> int {
    angle % (FULL_TURN as int)
}

/// `value`, moved to the nearer end of `[low, high]` where it lies outside.
pub open spec fn clamp_to(value: int, low: int, high: int) -> int {
    if value < low {
        low
    } else if value > high {
        high
    } else {
        value
    }
}

/// `value` divided by a positive `divisor`, rounded towards zero.
pub open spec fn toward_zero(value: int, divisor: int) -> int {
    if value >= 0 {
        value / divisor
    } else {
        -((-value) / divisor)
    }
}

/// The distance covered at `speed` length units per second in `micros`.
pub open spec fn travel(speed: int, micros: int) -> int {
    toward_zero(speed * micros, MICROS_PER_SECOND as int)
}

/// The part of `distance` that falls along an axis, where `part` is the sine
/// or cosine of the angle between them.
pub open spec fn share(distance: int, part: int) -> int {
    toward_zero(distance * part, HEADING_UNIT as int)
}

/// Whether `value` can be stored as a coordinate.
pub open spec fn is_coordinate(value: int) -> bool {
    i64::MIN <= value <= i64::MAX
}

/// A direction over the ground: the sine and cosine of the angle that the
/// camera is turned by, each in millionths.
#[derive(Clone, Copy, Debug, PartialEq, Eq, Structural)]
pub struct Heading {
    pub sin: i32,
    pub cos: i32,
}

/// What a movement needs to know of the frame it happens in: how long the
/// frame lasted and which way the camera faced.
#[derive(Clone, Copy, Debug, PartialEq, Eq, Structural)]
pub struct Frame {
    pub micros: u32,
    pub heading: Heading,
}

/// The four ways to move over the ground, relative to the facing.
#[derive(Clone, Copy, Debug, PartialEq, Eq, Structural)]
pub enum Direction {
    Forward,
    Back,
    Left,
    Right,
}

/// How far one frame of movement at `speed` carries along x and along z.
/// Forward is against both the sine and the cosine of the heading; left is
/// forward turned by a quarter, sine and cosine swapped and one of them
/// negated; back and right are their opposites.
pub open spec fn displacement(direction: Direction, speed: int, frame: Frame) -> (int, int) {
    let distance = travel(speed, frame.micros as int);
    let along_sin = share(distance, frame.heading.sin as int);
    let along_cos = share(distance, frame.heading.cos as int);
    match direction {
        Direction::Forward => (-along_sin, -along_cos),
        Direction::Back => (along_sin, along_cos),
        Direction::Left => (-along_cos, along_sin),
        Direction::Right => (along_cos, -along_sin),
    }
}

/// Largest size of a product that the helpers below divide.
pub(crate) const WIDE: i128 = 0x4000_0000_0000_0000_0000_0000_0000_0000;

/// Largest size of a distance that one frame can cover.
pub(crate) const FAR: i128 = 0x8000_0000_0000_0000_0000_0000;

/// The product of two 64-bit values, which 128 bits always hold.
pub(crate) fn product(a: i64, b: i64) -> (r: i128)
    ensures
        r == a * b,
        -WIDE <= r <= WIDE,
{
    assert(-0x4000_0000_0000_0000_0000_0000_0000_0000 <= a * b
        <= 0x4000_0000_0000_0000_0000_0000_0000_0000) by (nonlinear_arith)
        requires
            -0x8000_0000_0000_0000 <= a <= 0x8000_0000_0000_0000,
            -0x8000_0000_0000_0000 <= b <= 0x8000_0000_0000_0000,
    ;
    (a as i128) * (b as i128)
}

/// Brings an angle into `[0, FULL_TURN)` with one remainder, whatever its size.
pub(crate) fn wrapped(angle: i128) -> (r: i64)
    ensures
        r == wrap_turn(angle as int),
        0 <= r < FULL_TURN,
{
    let turn: u128 = 1_296_000_000;
    if angle >= 0 {
        let rest: u128 = (angle as u128) % turn;
        rest as i64
    } else {
        let below: u128 = (-(angle + 1)) as u128;
        let rest: u128 = below % turn;
        proof {
            let t = FULL_TURN as int;
            let q = (below as int) / t;
            lemma_fundamental_div_mod(below as int, t);
            assert(angle as int == (-q - 1) * t + (t - 1 - rest)) by (nonlinear_arith)
                requires
                    below as int == t * q + rest,
                    angle as int == -(below as int) - 1,
            ;
            lemma_fundamental_div_mod_converse(angle as int, t, -q - 1, t - 1 - rest);
        }
        (turn - 1 - rest) as i64
    }
}

/// Brings a value into `[low, high]`.
pub(crate) fn clamped(value: i128, low: i64, high: i64) -> (r: i64)
    requires
        low <= high,
    ensures
        r == clamp_to(value as int, low as int, high as int),
        low <= r <= high,
{
    if value < low as i128 {
        low
    } else if value > high as i128 {
        high
    } else {
        value as i64
    }
}

/// Dividing a value that is not negative by a positive divisor brings it
/// no further from zero.
proof fn lemma_quotient_is_nearer_zero(value: int, divisor: int)
    requires
        value >= 0,
        divisor > 0,
    ensures
        0 <= value / divisor <= value,
{
    lemma_fundamental_div_mod(value, divisor);
    let q = value / divisor;
    let r = value % divisor;
    assert(0 <= q <= value) by (nonlinear_arith)
        requires
            value == divisor * q + r,
            0 <= r < divisor,
            value >= 0,
    ;
}

/// Divides by a positive divisor, rounding towards zero.
pub(crate) fn quotient(value: i128, divisor: i128) -> (r: i128)
    requires
        divisor > 0,
        -WIDE <= value <= WIDE,
    ensures
        r == toward_zero(value as int, divisor as int),
        value >= 0 ==> 0 <= r <= value,
        value <= 0 ==> value <= r <= 0,
{
    if value >= 0 {
        proof {
            lemma_quotient_is_nearer_zero(value as int, divisor as int);
        }
        value / divisor
    } else {
        proof {
            lemma_quotient_is_nearer_zero(-value, divisor as int);
        }
        -((-value) / divisor)
    }
}

/// The distance covered at `speed` in `micros`.
pub(crate) fn travelled(speed: i64, micros: u32) -> (r: i128)
    ensures
        r == travel(speed as int, micros as int),
        -FAR <= r <= FAR,
{
    assert(-0x8000_0000_0000_0000_0000_0000 <= speed * micros <= 0x8000_0000_0000_0000_0000_0000)
        by (nonlinear_arith)
        requires
            -0x8000_0000_0000_0000 <= speed <= 0x8000_0000_0000_0000,
            0 <= micros <= 0x1_0000_0000,
    ;
    quotient((speed as i128) * (micros as i128), 1_000_000)
}

/// The part of `distance` along an axis at sine or cosine `part`.
pub(crate) fn shared(distance: i128, part: i32) -> (r: i128)
    requires
        -FAR <= distance <= FAR,
    ensures
        r == share(distance as int, part as int),
        -WIDE <= r <= WIDE,
{
    assert(-0x4000_0000_0000_0000_0000_0000_0000_0000 <= distance * part
        <= 0x4000_0000_0000_0000_0000_0000_0000_0000) by (nonlinear_arith)
        requires
            -0x8000_0000_0000_0000_0000_0000 <= distance <= 0x8000_0000_0000_0000_0000_0000,
            -0x8000_0000 <= part <= 0x8000_0000,
    ;
    quotient(distance * (part as i128), 1_000_000)
}

/// One frame of movement along x and along z.
pub(crate) fn displaced(direction: Direction, speed: i64, frame: Frame) -> (r: (i128, i128))
    ensures
        r.0 == displacement(direction, speed as int, frame).0,
        r.1 == displacement(direction, speed as int, frame).1,
        -WIDE <= r.0 <= WIDE,
        -WIDE <= r.1 <= WIDE,
{
    let distance = travelled(speed, frame.micros);
    let along_sin = shared(distance, frame.heading.sin);
    let along_cos = shared(distance, frame.heading.cos);
    match direction {
        Direction::Forward => (-along_sin, -along_cos),
        Direction::Back => (along_sin, along_cos),
        Direction::Left => (-along_cos, along_sin),
        Direction::Right => (along_cos, -along_sin),
    }
}

/// Tells whether `from` moved by `by` is still a coordinate.
pub(crate) fn reaches(from: i64, by: i128) -> (r: bool)
    requires
        -WIDE <= by <= WIDE,
    ensures
        r == is_coordinate(from + by),
{
    let to: i128 = from as i128 + by;
    i64::MIN as i128 <= to && to <= i64::MAX as i128
}

/// The coordinate `from` moved by `by`.
pub(crate) fn reached(from: i64, by: i128) -> (r: i64)
    requires
        -WIDE <= by <= WIDE,
        is_coordinate(from + by),
    ensures
        r == from + by,
{
    (from as i128 + by) as i64
}

} // verus!
