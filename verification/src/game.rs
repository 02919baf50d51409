//! The game as a whole and the order of one simulation tick.

use vstd::prelude::*;
use crate::ball::{ball_movement_system, clamp_delta, spec_ball_control, spec_clamp_delta};
use crate::contact::{classified_all, ContactEvent};
use crate::hud::{
    info_text_in,
    infoboard_system,
    score_text_in,
    scoreboard_system,
    Infoboard,
    Scoreboard,
};
use crate::paddle::{paddle_movement_system, spec_paddle_control, Paddle, PADDLE_MAX_X};
use crate::registry::{registered_all, BodyHandle, Entity, Registration, Registry, RegistryError};
use crate::resolver::{contact_system, lemma_score_never_falls, Removal, Scene};
use crate::state::GameState;
use crate::units::Velocity;
use crate::world::{TagSet, World};

verus! {

/// The keys as they are held down in one tick.
#[derive(Clone, Copy, Debug, PartialEq, Eq, Structural)]
pub struct Input {
    pub left: bool,
    pub right: bool,
    pub launch: bool,
}

/// The paddle as the tick finds it: where its body is, and its speed.
#[derive(Clone, Copy, Debug, PartialEq, Eq, Structural)]
pub struct PaddleBody {
    pub x: i64,
    pub paddle: Paddle,
}

/// What the outside hands to one tick.
pub struct Frame {
    /// The keys held down.
    pub input: Input,
    /// The time since the last tick, in microseconds.
    pub delta: u64,
    /// The bodies created since the last tick, each with its entity.
    pub added: Vec<Registration>,
    /// The contact events of the physics step, in the order of their arrival.
    pub events: Vec<ContactEvent>,
    /// The ball's velocity, or `None` while the ball has no body.
    pub ball: Option<Velocity>,
    /// The paddle, or `None` while the paddle has no body.
    pub paddle: Option<PaddleBody>,
}

/// What the outside has to carry out after one tick.
pub struct Commands {
    /// The velocity to give the ball's body; `None` if the ball has none.
    pub ball: Option<Velocity>,
    /// The position that the paddle's body is to take next; `None` if the
    /// paddle is not to be moved.
    pub paddle: Option<i64>,
    /// The bodies to remove from the simulation, each with the entity to
    /// despawn, in the order in which they were struck.
    pub removed: Vec<Removal>,
    /// The span of time that the tick is taken to have lasted.
    pub delta: u64,
}

/// The game's own state: what outlasts a tick.
pub struct Game {
    pub state: GameState,
    pub scoreboard: Scoreboard,
    pub infoboard: Infoboard,
    pub score_text: String,
    pub registry: Registry,
    pub world: World,
}

/// The game as mathematical values.
pub struct GameModel {
    pub state: GameState,
    pub score: u64,
    pub info: Seq<char>,
    pub score_text: Seq<char>,
    pub bodies: Map<BodyHandle, Entity>,
    pub tags: Map<Entity, TagSet>,
}

/// What one tick comes to: the game after it and, unless a registration
/// failed, the commands for the outside.
pub struct Ticked {
    pub game: GameModel,
    pub failure: Option<RegistryError>,
    pub ball: Option<Velocity>,
    pub paddle: Option<i64>,
    pub removed: Seq<Removal>,
    pub delta: u64,
}

/// The velocity that contact handling works on: the ball's, or rest for a
/// ball without a body.
pub open spec fn velocity_or_rest(ball: Option<Velocity>) -> Velocity {
    match ball {
        Some(v) => v,
        None => Velocity::spec_zero(),
    }
}

/// One tick, step by step.
///
/// 1. The new bodies are registered. A registration that is turned down ends
///    the tick at once: the pairings before it stay, nothing else happens.
/// 2. The contact events are read against the registry and the world as they
///    stand now, and the responses are applied in the order of the events.
/// 3. The ball controller acts on the ball's velocity as the contacts left
///    it, if the ball has a body.
/// 4. The paddle controller acts, in the state that the ball controller left.
/// 5. The prompt and the score text follow the state: the prompt shows
///    before the launch, the score during play, and both are blank after
///    the end.
pub open spec fn ticked(game: GameModel, frame: Frame) -> Ticked {
    let (bodies, failure) = registered_all(game.bodies, frame.added@);
    if failure is Some {
        Ticked {
            game: GameModel { bodies, ..game },
            failure,
            ball: None,
            paddle: None,
            removed: Seq::empty(),
            delta: 0,
        }
    } else {
        let scene = (Scene {
            bodies,
            tags: game.tags,
            score: game.score,
            velocity: velocity_or_rest(frame.ball),
            removed: Seq::empty(),
        }).after_all(classified_all(bodies, game.tags, frame.events@));
        let step = spec_ball_control(game.state, frame.input.launch, scene.velocity);
        let state = if frame.ball is Some {
            step.state
        } else {
            game.state
        };
        Ticked {
            game: GameModel {
                state,
                score: scene.score,
                info: info_text_in(state),
                score_text: score_text_in(state, scene.score),
                bodies: scene.bodies,
                tags: scene.tags,
            },
            failure: None,
            ball: if frame.ball is Some {
                Some(step.velocity)
            } else {
                None
            },
            paddle: match frame.paddle {
                Some(p) => spec_paddle_control(
                    state,
                    frame.input.left,
                    frame.input.right,
                    frame.delta,
                    p.x,
                    p.paddle,
                ),
                None => None,
            },
            removed: scene.removed,
            delta: spec_clamp_delta(frame.delta),
        }
    }
}

impl Game {
    /// The parts of the game are sound.
    pub open spec fn wf(&self) -> bool {
        self.registry.wf()
    }

    /// The game as mathematical values.
    pub open spec fn view(&self) -> GameModel {
        GameModel {
            state: self.state,
            score: self.scoreboard.score,
            info: self.infoboard@,
            score_text: self.score_text@,
            bodies: self.registry@,
            tags: self.world@,
        }
    }

    /// A new session: nothing registered, nothing alive, no points, blank
    /// display, waiting for the launch.
    pub fn new() -> (game: Game)
        ensures
            game.wf(),
            game@ == (GameModel {
                state: GameState::NotStarted,
                score: 0,
                info: Seq::empty(),
                score_text: Seq::empty(),
                bodies: Map::empty(),
                tags: Map::empty(),
            }),
    {
        Game {
            state: GameState::initial(),
            scoreboard: Scoreboard::new(),
            infoboard: Infoboard::new(),
            score_text: String::new(),
            registry: Registry::new(),
            world: World::new(),
        }
    }

    /// Runs one tick on `frame` and returns the commands for the outside, or
    /// the failure of a registration.
    pub fn tick(&mut self, frame: &Frame) -> (r: Result<Commands, RegistryError>)
        requires
            old(self).wf(),
        ensures
            final(self).wf(),
            final(self)@ == ticked(old(self)@, *frame).game,
            match r {
                Ok(commands) => {
                    let t = ticked(old(self)@, *frame);
                    &&& t.failure is None
                    &&& commands.ball == t.ball
                    &&& commands.paddle == t.paddle
                    &&& commands.removed@ == t.removed
                    &&& commands.delta == t.delta
                },
                Err(e) => ticked(old(self)@, *frame).failure == Some(e),
            },
    {
        match self.registry.register_all(&frame.added) {
            Ok(()) => {},
            Err(e) => {
                return Err(e);
            },
        }
        let mut velocity = match frame.ball {
            Some(v) => v,
            None => Velocity::zero(),
        };
        let removed = contact_system(
            &mut self.registry,
            &mut self.world,
            &mut self.scoreboard,
            &frame.events,
            &mut velocity,
        );
        let (ball, delta) = match frame.ball {
            Some(_) => {
                let bounded = ball_movement_system(
                    &mut self.state,
                    &mut self.infoboard,
                    frame.input.launch,
                    frame.delta,
                    &mut velocity,
                );
                (Some(velocity), bounded)
            },
            None => (None, clamp_delta(frame.delta)),
        };
        let paddle = match frame.paddle {
            Some(p) => paddle_movement_system(
                self.state,
                frame.input.left,
                frame.input.right,
                frame.delta,
                p.x,
                p.paddle,
            ),
            None => None,
        };
        infoboard_system(self.state, &mut self.infoboard);
        scoreboard_system(self.state, &self.scoreboard, &mut self.score_text);
        Ok(Commands { ball, paddle, removed, delta })
    }
}

/// Whatever a tick is handed, a paddle position that it commands lies in the
/// field, and it commands one exactly when the ball is in play after the
/// tick's ball control and the paddle has a body.
pub proof fn lemma_tick_keeps_paddle_in_field(game: GameModel, frame: Frame)
    ensures
        ({
            let t = ticked(game, frame);
            &&& t.paddle matches Some(x) ==> -PADDLE_MAX_X <= x <= PADDLE_MAX_X
            &&& t.paddle is Some <==> t.failure is None && frame.paddle is Some && t.game.state
                == GameState::Playing
        }),
{
}

/// A tick never lowers the score and never steps back in the game state. The
/// state changes in one case only: before the start, with the launch key
/// down, a ball that has a body, and no failed registration; then play begins.
pub proof fn lemma_tick_only_advances(game: GameModel, frame: Frame)
    ensures
        ({
            let t = ticked(game, frame);
            let launches = game.state == GameState::NotStarted && frame.input.launch && frame.ball
                is Some && t.failure is None;
            &&& t.game.score >= game.score
            &&& launches ==> t.game.state == GameState::Playing && t.ball == Some(
                crate::ball::spec_launch_velocity(),
            )
            &&& !launches ==> t.game.state == game.state
        }),
{
    let (bodies, failure) = registered_all(game.bodies, frame.added@);
    if failure is None {
        let scene = Scene {
            bodies,
            tags: game.tags,
            score: game.score,
            velocity: velocity_or_rest(frame.ball),
            removed: Seq::empty(),
        };
        lemma_score_never_falls(scene, classified_all(bodies, game.tags, frame.events@));
    }
}

/// What the display shows after a tick that went through: the call to start
/// and no score before the launch, the score and no prompt during play, and
/// nothing at all once the game is over.
pub proof fn lemma_tick_display_follows_state(game: GameModel, frame: Frame)
    requires
        ticked(game, frame).failure is None,
    ensures
        ({
            let after = ticked(game, frame).game;
            match after.state {
                GameState::NotStarted => after.info == crate::hud::prompt_text() && after.score_text
                    == Seq::<char>::empty(),
                GameState::Playing => after.info == Seq::<char>::empty() && after.score_text
                    == crate::hud::score_line(after.score),
                GameState::GameOver => after.info == Seq::<char>::empty() && after.score_text
                    == Seq::<char>::empty(),
            }
        }),
{
}

} // verus!
