//! The ball controller: the launch, and the steady speed of a ball in play.

use vstd::prelude::*;
use crate::hud::Infoboard;
use crate::state::{GameState, Trigger};
use crate::units::{Velocity, MICROS_PER_SECOND, UNIT};

verus! {

/// The speed that each horizontal component of a ball in play is held at.
pub const BALL_SPEED: i64 = 20 * UNIT;

/// The size of each component of the launch velocity.
pub const LAUNCH_SPEED: i64 = 10 * UNIT;

/// The longest span of time, in microseconds, that one tick is taken to last.
pub const MAX_DELTA: u64 = MICROS_PER_SECOND / 5;

/// The velocity that the launch gives the ball: down the diagonal, towards
/// the negative end of every axis.
pub open spec fn spec_launch_velocity() -> Velocity {
    Velocity {
        x: (-LAUNCH_SPEED) as i64,
        y: (-LAUNCH_SPEED) as i64,
        z: (-LAUNCH_SPEED) as i64,
    }
}

/// The velocity that the launch gives the ball.
#[verifier::when_used_as_spec(spec_launch_velocity)]
pub fn launch_velocity() -> (v: Velocity)
    ensures
        v == spec_launch_velocity(),
{
    Velocity { x: -LAUNCH_SPEED, y: -LAUNCH_SPEED, z: -LAUNCH_SPEED }
}

/// A horizontal component held at the steady speed: forwards if it points
/// forwards, backwards otherwise. A component of zero counts as backwards, so
/// that the ball never rests.
pub open spec fn spec_hold(c: i64) -> i64 {
    if c > 0 {
        BALL_SPEED
    } else {
        (-BALL_SPEED) as i64
    }
}

/// Holds a horizontal component at the steady speed.
#[verifier::when_used_as_spec(spec_hold)]
pub fn hold(c: i64) -> (r: i64)
    ensures
        r == spec_hold(c),
{
    if c > 0 {
        BALL_SPEED
    } else {
        -BALL_SPEED
    }
}

/// The velocity of a ball in play after one tick of control: both horizontal
/// components are held at the steady speed, and a ball that drifts upwards is
/// pressed down onto the board.
pub open spec fn spec_steady(v: Velocity) -> Velocity {
    Velocity {
        x: spec_hold(v.x),
        y: if v.y > 0 {
            (-BALL_SPEED) as i64
        } else {
            v.y
        },
        z: spec_hold(v.z),
    }
}

/// Holds the velocity of a ball in play at the steady speed.
#[verifier::when_used_as_spec(spec_steady)]
pub fn steady(v: Velocity) -> (r: Velocity)
    ensures
        r == spec_steady(v),
{
    Velocity {
        x: hold(v.x),
        y: if v.y > 0 {
            -BALL_SPEED
        } else {
            v.y
        },
        z: hold(v.z),
    }
}

/// The span of time that a tick of `delta` microseconds is taken to last: a
/// stalled frame counts as `MAX_DELTA` and no more.
pub open spec fn spec_clamp_delta(delta: u64) -> u64 {
    if delta > MAX_DELTA {
        MAX_DELTA
    } else {
        delta
    }
}

/// Bounds the span of time of one tick.
#[verifier::when_used_as_spec(spec_clamp_delta)]
pub fn clamp_delta(delta: u64) -> (r: u64)
    ensures
        r == spec_clamp_delta(delta),
{
    if delta > MAX_DELTA {
        MAX_DELTA
    } else {
        delta
    }
}

/// What one tick of ball control decides.
#[derive(Clone, Copy, Debug, PartialEq, Eq, Structural)]
pub struct BallStep {
    /// The game state after the tick.
    pub state: GameState,
    /// The velocity that the ball is to have.
    pub velocity: Velocity,
    /// Whether the ball was launched in this tick.
    pub launched: bool,
}

/// One tick of ball control.
///
/// Before the start the ball is left alone until the launch command comes:
/// then it gets the launch velocity and play begins. In play the velocity is
/// held steady, whatever the command. After the end nothing happens.
pub open spec fn spec_ball_control(state: GameState, launch: bool, velocity: Velocity) -> BallStep {
    match state {
        GameState::NotStarted => if launch {
            BallStep {
                state: state.next(Trigger::Launch),
                velocity: spec_launch_velocity(),
                launched: true,
            }
        } else {
            BallStep { state, velocity, launched: false }
        },
        GameState::Playing => BallStep { state, velocity: spec_steady(velocity), launched: false },
        GameState::GameOver => BallStep { state, velocity, launched: false },
    }
}

/// Decides one tick of ball control.
#[verifier::when_used_as_spec(spec_ball_control)]
pub fn ball_control(state: GameState, launch: bool, velocity: Velocity) -> (step: BallStep)
    ensures
        step == spec_ball_control(state, launch, velocity),
{
    match state {
        GameState::NotStarted => if launch {
            BallStep {
                state: state.next(Trigger::Launch),
                velocity: launch_velocity(),
                launched: true,
            }
        } else {
            BallStep { state, velocity, launched: false }
        },
        GameState::Playing => BallStep { state, velocity: steady(velocity), launched: false },
        GameState::GameOver => BallStep { state, velocity, launched: false },
    }
}

/// One tick of ball control on the game's own parts: sets the state and the
/// ball's velocity as `ball_control` decides, and blanks the prompt when the
/// ball is launched. Returns the bounded span of time of the tick.
pub fn ball_movement_system(
    state: &mut GameState,
    infoboard: &mut Infoboard,
    launch: bool,
    delta: u64,
    velocity: &mut Velocity,
) -> (bounded: u64)
    ensures
        bounded == spec_clamp_delta(delta),
        ({
            let step = spec_ball_control(*old(state), launch, *old(velocity));
            &&& *final(state) == step.state
            &&& *final(velocity) == step.velocity
            &&& final(infoboard)@ == if step.launched {
                Seq::<char>::empty()
            } else {
                old(infoboard)@
            }
        }),
{
    let bounded = clamp_delta(delta);
    let step = ball_control(*state, launch, *velocity);
    *state = step.state;
    *velocity = step.velocity;
    if step.launched {
        infoboard.clear();
    }
    bounded
}

/// The launch command counts only before the start: there it begins play and
/// gives the ball the launch velocity, whatever the ball did before.
pub proof fn lemma_launch_starts_play(velocity: Velocity)
    ensures
        spec_ball_control(GameState::NotStarted, true, velocity) == (BallStep {
            state: GameState::Playing,
            velocity: spec_launch_velocity(),
            launched: true,
        }),
{
}

/// In every other state the launch command is without effect: the tick goes
/// as it would without the command, and the state stays.
pub proof fn lemma_launch_is_idle_after_start(state: GameState, velocity: Velocity)
    requires
        state != GameState::NotStarted,
    ensures
        spec_ball_control(state, true, velocity) == spec_ball_control(state, false, velocity),
        spec_ball_control(state, true, velocity).state == state,
        !spec_ball_control(state, true, velocity).launched,
{
}

/// Without the launch command a ball that waits is left alone.
pub proof fn lemma_waiting_ball_is_left_alone(velocity: Velocity)
    ensures
        spec_ball_control(GameState::NotStarted, false, velocity) == (BallStep {
            state: GameState::NotStarted,
            velocity,
            launched: false,
        }),
{
}

/// A ball in play keeps its speed: after a tick of control each horizontal
/// component has the steady speed and the sign it had (zero counting as
/// negative), the ball does not rise, and a second tick changes nothing more.
pub proof fn lemma_steady_speed(velocity: Velocity)
    ensures
        ({
            let v = spec_steady(velocity);
            &&& (v.x == BALL_SPEED || v.x == -BALL_SPEED)
            &&& (v.z == BALL_SPEED || v.z == -BALL_SPEED)
            &&& (v.x > 0 <==> velocity.x > 0)
            &&& (v.z > 0 <==> velocity.z > 0)
            &&& v.y <= 0
            &&& spec_steady(v) == v
        }),
{
}

} // verus!
