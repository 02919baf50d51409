//! The paddle controller: the player's keys move the paddle across the
//! arena, never beyond the side walls.

use vstd::prelude::*;
use crate::state::GameState;
use crate::units::MICROS_PER_SECOND;

verus! {

/// The farthest that the paddle's centre may be from the middle of the
/// arena: half the width of the field less half the width of the paddle.
pub const PADDLE_MAX_X: i64 = 25_500;

/// The speed of the game's paddle: fifty units per second.
pub const PADDLE_SPEED: u32 = 50_000;

/// What makes an entity a paddle: the speed at which the keys move it, in
/// thousandths of a unit per second.
#[derive(Clone, Copy, Debug, PartialEq, Eq, Structural)]
pub struct Paddle {
    pub speed: u32,
}

/// The direction that the keys ask for: `1` for left, `-1` for right, and
/// `0` when both keys or neither are down.
pub open spec fn spec_direction(left: bool, right: bool) -> int {
    (if left {
        1int
    } else {
        0int
    }) - (if right {
        1int
    } else {
        0int
    })
}

/// The direction that the keys ask for.
pub fn direction(left: bool, right: bool) -> (d: i8)
    ensures
        d == spec_direction(left, right),
{
    let mut d: i8 = 0;
    if left {
        d = d + 1;
    }
    if right {
        d = d - 1;
    }
    d
}

/// The way that a paddle of the given speed makes in `delta` microseconds,
/// in whole thousandths of a unit.
pub open spec fn travel(speed: u32, delta: u64) -> nat {
    (speed as nat * delta as nat) / (MICROS_PER_SECOND as nat)
}

/// The position `x` brought back into the field.
pub open spec fn spec_confine(x: int) -> int {
    if x < -PADDLE_MAX_X {
        -PADDLE_MAX_X as int
    } else if x > PADDLE_MAX_X {
        PADDLE_MAX_X as int
    } else {
        x
    }
}

/// Where the paddle is to be after one tick: where it is, moved in the
/// direction of the keys by the way it makes in the tick, and brought back
/// into the field.
pub open spec fn spec_move_paddle(x: i64, left: bool, right: bool, speed: u32, delta: u64) -> i64 {
    spec_confine(x + spec_direction(left, right) * travel(speed, delta)) as i64
}

/// Computes the paddle's next position.
#[verifier::when_used_as_spec(spec_move_paddle)]
pub fn move_paddle(x: i64, left: bool, right: bool, speed: u32, delta: u64) -> (target: i64)
    ensures
        target == spec_move_paddle(x, left, right, speed, delta),
        -PADDLE_MAX_X <= target <= PADDLE_MAX_X,
{
    assert(speed as nat * delta as nat <= 0xffff_ffff * 0xffff_ffff_ffff_ffff) by (nonlinear_arith)
        requires
            speed <= 0xffff_ffff,
            delta <= 0xffff_ffff_ffff_ffff,
    ;
    let way: u128 = (speed as u128) * (delta as u128) / (MICROS_PER_SECOND as u128);
    let d = direction(left, right);
    let moved: i128 = if d > 0 {
        x as i128 + way as i128
    } else if d < 0 {
        x as i128 - way as i128
    } else {
        x as i128
    };
    if moved < -PADDLE_MAX_X as i128 {
        -PADDLE_MAX_X
    } else if moved > PADDLE_MAX_X as i128 {
        PADDLE_MAX_X
    } else {
        moved as i64
    }
}

/// One tick of paddle control. The paddle is moved only while the ball is in
/// play; in the other states no position is commanded.
pub open spec fn spec_paddle_control(
    state: GameState,
    left: bool,
    right: bool,
    delta: u64,
    x: i64,
    paddle: Paddle,
) -> Option<i64> {
    if state == GameState::Playing {
        Some(spec_move_paddle(x, left, right, paddle.speed, delta))
    } else {
        None
    }
}

/// One tick of paddle control: the position that the paddle's body is to
/// take next, or `None` while the paddle is not to be moved.
#[verifier::when_used_as_spec(spec_paddle_control)]
pub fn paddle_movement_system(
    state: GameState,
    left: bool,
    right: bool,
    delta: u64,
    x: i64,
    paddle: Paddle,
) -> (target: Option<i64>)
    ensures
        target == spec_paddle_control(state, left, right, delta, x, paddle),
{
    if state.is_playing() {
        Some(move_paddle(x, left, right, paddle.speed, delta))
    } else {
        None
    }
}

/// The paddle never leaves the field: whatever the keys, the speed and the
/// span of time, however long, the commanded position lies within
/// `PADDLE_MAX_X` of the middle.
pub proof fn lemma_paddle_stays_in_field(
    x: i64,
    left: bool,
    right: bool,
    speed: u32,
    delta: u64,
)
    ensures
        -PADDLE_MAX_X <= spec_move_paddle(x, left, right, speed, delta) <= PADDLE_MAX_X,
        spec_move_paddle(x, left, right, speed, delta) == spec_confine(
            x + spec_direction(left, right) * travel(speed, delta),
        ),
{
}

/// Both keys down cancel, just as no key down: a paddle inside the field
/// stays where it is.
pub proof fn lemma_opposed_keys_cancel(x: i64, speed: u32, delta: u64)
    requires
        -PADDLE_MAX_X <= x <= PADDLE_MAX_X,
    ensures
        spec_direction(true, true) == 0,
        spec_move_paddle(x, true, true, speed, delta) == x,
        spec_move_paddle(x, false, false, speed, delta) == x,
{
}

/// The left key never moves the paddle towards lower `x`, the right key
/// never towards higher `x`.
pub proof fn lemma_keys_move_their_way(x: i64, speed: u32, delta: u64)
    requires
        -PADDLE_MAX_X <= x <= PADDLE_MAX_X,
    ensures
        spec_move_paddle(x, true, false, speed, delta) >= x,
        spec_move_paddle(x, false, true, speed, delta) <= x,
{
}

} // verus!
