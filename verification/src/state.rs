//! The game-state machine.
//!
//! A session starts in `NotStarted`, enters `Playing` on the launch command
//! and ends in `GameOver`. The state decides which controllers act and what
//! the display shows.

use vstd::prelude::*;

verus! {

/// The phase the game is in.
#[derive(Clone, Copy, Debug, PartialEq, Eq, Structural)]
pub enum GameState {
    /// The ball rests and waits for the launch command.
    NotStarted,
    /// The ball is in play.
    Playing,
    /// The session has ended. Nothing leaves this state.
    GameOver,
}

/// What can move the game from one state to the next.
#[derive(Clone, Copy, Debug, PartialEq, Eq, Structural)]
pub enum Trigger {
    /// The player gave the launch command.
    Launch,
    /// The ball left the field of play. When a ball counts as lost is for the
    /// caller to decide; the simulation itself never raises this trigger.
    BallLost,
}

impl GameState {
    /// The state a session starts in.
    pub open spec fn spec_initial() -> GameState {
        GameState::NotStarted
    }

    /// The state a session starts in.
    #[verifier::when_used_as_spec(spec_initial)]
    pub fn initial() -> (s: GameState)
        ensures
            s == GameState::spec_initial(),
    {
        GameState::NotStarted
    }

    /// The state that follows this one on `trigger`. A launch starts play
    /// from `NotStarted`, a lost ball ends play from `Playing`; every other
    /// combination leaves the state as it is.
    pub open spec fn spec_next(self, trigger: Trigger) -> GameState {
        match (self, trigger) {
            (GameState::NotStarted, Trigger::Launch) => GameState::Playing,
            (GameState::Playing, Trigger::BallLost) => GameState::GameOver,
            _ => self,
        }
    }

    /// The state that follows this one on `trigger`.
    #[verifier::when_used_as_spec(spec_next)]
    pub fn next(self, trigger: Trigger) -> (s: GameState)
        ensures
            s == self.spec_next(trigger),
    {
        match (self, trigger) {
            (GameState::NotStarted, Trigger::Launch) => GameState::Playing,
            (GameState::Playing, Trigger::BallLost) => GameState::GameOver,
            _ => self,
        }
    }

    /// How far the session has come: 0 before the launch, 1 in play, 2 when
    /// over.
    pub open spec fn stage(self) -> nat {
        match self {
            GameState::NotStarted => 0,
            GameState::Playing => 1,
            GameState::GameOver => 2,
        }
    }

    /// Whether the ball is in play, so that the controllers act.
    pub open spec fn spec_is_playing(self) -> bool {
        self == GameState::Playing
    }

    /// Whether the ball is in play, so that the controllers act.
    #[verifier::when_used_as_spec(spec_is_playing)]
    pub fn is_playing(self) -> (b: bool)
        ensures
            b == self.spec_is_playing(),
    {
        match self {
            GameState::Playing => true,
            _ => false,
        }
    }
}

/// The game never steps back: a trigger leaves the state or moves it one
/// stage on.
pub proof fn lemma_state_only_advances(state: GameState, trigger: Trigger)
    ensures
        state.stage() <= state.next(trigger).stage() <= state.stage() + 1,
{
}

/// `GameOver` is final: no trigger leads out of it.
pub proof fn lemma_game_over_is_final(trigger: Trigger)
    ensures
        GameState::GameOver.next(trigger) == GameState::GameOver,
{
}

/// A launch starts play from `NotStarted` and does nothing in any other
/// state.
pub proof fn lemma_launch_counts_once(state: GameState)
    ensures
        state == GameState::NotStarted ==> state.next(Trigger::Launch) == GameState::Playing,
        state != GameState::NotStarted ==> state.next(Trigger::Launch) == state,
        state.next(Trigger::Launch).next(Trigger::Launch) == state.next(Trigger::Launch),
{
}

} // verus!
