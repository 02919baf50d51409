use breakout::contact::ContactEvent;
use breakout::game::{Commands, Frame, Game, Input, PaddleBody};
use breakout::layout::{setup, setup_blocks};
use breakout::paddle::Paddle;
use breakout::registry::{BodyHandle, Entity, Registration, RegistryError};
use breakout::resolver::Removal;
use breakout::state::GameState;
use breakout::units::Velocity;

const BALL: Entity = Entity { id: 0 };
const PADDLE: Entity = Entity { id: 1 };
const LEFT_WALL: Entity = Entity { id: 2 };
const TOP_WALL: Entity = Entity { id: 4 };
const FIRST_BRICK: u64 = 6;

fn handle(entity: Entity) -> BodyHandle {
    BodyHandle { index: entity.id, generation: 0 }
}

fn spare(index: u64) -> BodyHandle {
    BodyHandle { index, generation: 9 }
}

fn idle() -> Input {
    Input { left: false, right: false, launch: false }
}

fn frame(input: Input, events: Vec<ContactEvent>, ball: Velocity, paddle_x: i64) -> Frame {
    Frame {
        input,
        delta: 100_000,
        added: Vec::new(),
        events,
        ball: Some(ball),
        paddle: Some(PaddleBody { x: paddle_x, paddle: Paddle { speed: 50_000 } }),
    }
}

fn run(game: &mut Game, frame: &Frame) -> Commands {
    match game.tick(frame) {
        Ok(commands) => commands,
        Err(e) => panic!("registration failed: {:?}", e),
    }
}

/// A game with the arena and the bricks spawned, and every body registered
/// in the first tick.
fn furnished() -> Game {
    let mut game = Game::new();
    let mut added = Vec::new();
    let mut id = 0;
    for blueprint in setup().iter().chain(setup_blocks().iter()) {
        let entity = Entity { id };
        assert!(game.world.spawn(entity, blueprint.tags));
        added.push(Registration { handle: handle(entity), entity });
        id += 1;
    }
    let first = Frame {
        input: idle(),
        delta: 16_667,
        added,
        events: Vec::new(),
        ball: Some(Velocity::zero()),
        paddle: Some(PaddleBody { x: 0, paddle: Paddle { speed: 50_000 } }),
    };
    let commands = run(&mut game, &first);
    assert_eq!(commands.ball, Some(Velocity::zero()));
    assert_eq!(commands.paddle, None);
    assert!(commands.removed.is_empty());
    assert_eq!(commands.delta, 16_667);
    game
}

#[test]
fn a_new_game_waits_for_the_launch() {
    let game = Game::new();
    assert_eq!(game.state, GameState::NotStarted);
    assert_eq!(game.scoreboard.score, 0);
    assert_eq!(game.infoboard.text, "");
    assert_eq!(game.score_text, "");
    assert_eq!(game.registry.len(), 0);
    assert!(!game.world.is_alive(BALL));
}

#[test]
fn the_first_tick_registers_the_bodies_and_shows_the_prompt() {
    let game = furnished();
    assert_eq!(game.state, GameState::NotStarted);
    assert_eq!(game.registry.len(), 36);
    assert_eq!(game.registry.resolve(handle(BALL)), Some(BALL));
    assert_eq!(game.registry.handle_of(PADDLE), Some(handle(PADDLE)));
    assert_eq!(game.infoboard.text, "Press SPACE to Start");
    assert_eq!(game.score_text, "");
}

#[test]
fn keys_do_not_move_the_paddle_before_the_launch() {
    let mut game = furnished();
    let keys = Input { left: true, right: false, launch: false };
    let commands = run(&mut game, &frame(keys, Vec::new(), Velocity::zero(), 0));
    assert_eq!(commands.paddle, None);
    assert_eq!(commands.ball, Some(Velocity::zero()));
    assert_eq!(game.state, GameState::NotStarted);
}

#[test]
fn the_launch_tick_starts_play() {
    let mut game = furnished();
    let keys = Input { left: true, right: false, launch: true };
    let commands = run(&mut game, &frame(keys, Vec::new(), Velocity::zero(), 0));
    assert_eq!(game.state, GameState::Playing);
    assert_eq!(commands.ball, Some(Velocity { x: -10_000, y: -10_000, z: -10_000 }));
    assert_eq!(commands.paddle, Some(5_000));
    assert_eq!(commands.delta, 100_000);
    assert_eq!(game.infoboard.text, "");
    assert_eq!(game.score_text, "Score: 0");
}

#[test]
fn a_tick_in_play_bounces_scores_and_steadies() {
    let mut game = furnished();
    let launch = Input { left: false, right: false, launch: true };
    run(&mut game, &frame(launch, Vec::new(), Velocity::zero(), 0));

    let brick = Entity { id: FIRST_BRICK + 7 };
    let events = vec![
        ContactEvent::Started(handle(brick), handle(BALL)),
        ContactEvent::Started(handle(BALL), handle(LEFT_WALL)),
        ContactEvent::Started(handle(PADDLE), handle(LEFT_WALL)),
    ];
    let keys = Input { left: false, right: true, launch: true };
    let flying = Velocity { x: 19_000, y: 250, z: 18_500 };
    let commands = run(&mut game, &frame(keys, events, flying, 25_000));

    assert_eq!(commands.ball, Some(Velocity { x: -20_000, y: -20_000, z: -20_000 }));
    assert_eq!(commands.paddle, Some(20_000));
    assert_eq!(commands.removed, vec![Removal { handle: handle(brick), entity: brick }]);
    assert_eq!(game.state, GameState::Playing);
    assert_eq!(game.scoreboard.score, 1);
    assert_eq!(game.score_text, "Score: 1");
    assert_eq!(game.infoboard.text, "");
    assert_eq!(game.registry.resolve(handle(brick)), None);
    assert!(!game.world.is_alive(brick));
    assert_eq!(game.registry.len(), 35);
}

#[test]
fn every_brick_scores_once_over_a_session() {
    let mut game = furnished();
    let launch = Input { left: false, right: false, launch: true };
    run(&mut game, &frame(launch, Vec::new(), Velocity::zero(), 0));
    let mut events = Vec::new();
    for round in 0..2 {
        for i in 0..30 {
            let brick = Entity { id: FIRST_BRICK + i };
            if round == 0 {
                events.push(ContactEvent::Started(handle(BALL), handle(brick)));
            } else {
                events.push(ContactEvent::Started(handle(brick), handle(BALL)));
            }
        }
    }
    let v = Velocity { x: 20_000, y: 0, z: 20_000 };
    let commands = run(&mut game, &frame(idle(), events.clone(), v, 0));
    assert_eq!(commands.removed.len(), 30);
    assert_eq!(game.scoreboard.score, 30);
    assert_eq!(game.score_text, "Score: 30");
    assert_eq!(game.registry.len(), 6);
    assert_eq!(commands.ball, Some(Velocity { x: 20_000, y: 0, z: 20_000 }));

    let commands = run(&mut game, &frame(idle(), events, v, 0));
    assert!(commands.removed.is_empty());
    assert_eq!(game.scoreboard.score, 30);
}

#[test]
fn the_top_wall_turns_the_ball_back() {
    let mut game = furnished();
    let launch = Input { left: false, right: false, launch: true };
    run(&mut game, &frame(launch, Vec::new(), Velocity::zero(), 0));
    let events = vec![ContactEvent::Started(handle(TOP_WALL), handle(BALL))];
    let v = Velocity { x: -20_000, y: -5, z: 20_000 };
    let commands = run(&mut game, &frame(idle(), events, v, 0));
    assert_eq!(commands.ball, Some(Velocity { x: -20_000, y: -5, z: -20_000 }));
    assert_eq!(game.scoreboard.score, 0);
}

#[test]
fn a_failed_registration_ends_the_tick() {
    let mut game = furnished();
    let brick = Entity { id: FIRST_BRICK };
    let newcomer = Entity { id: 500 };
    let bad = Frame {
        input: Input { left: true, right: false, launch: true },
        delta: 100_000,
        added: vec![
            Registration { handle: spare(1), entity: newcomer },
            Registration { handle: handle(BALL), entity: Entity { id: 501 } },
            Registration { handle: spare(2), entity: Entity { id: 502 } },
        ],
        events: vec![ContactEvent::Started(handle(BALL), handle(brick))],
        ball: Some(Velocity::zero()),
        paddle: Some(PaddleBody { x: 0, paddle: Paddle { speed: 50_000 } }),
    };
    match game.tick(&bad) {
        Err(e) => assert_eq!(e, RegistryError::HandleTaken),
        Ok(_) => panic!("the tick went through"),
    }
    assert_eq!(game.state, GameState::NotStarted);
    assert_eq!(game.scoreboard.score, 0);
    assert_eq!(game.infoboard.text, "Press SPACE to Start");
    assert_eq!(game.registry.len(), 37);
    assert_eq!(game.registry.resolve(spare(1)), Some(newcomer));
    assert_eq!(game.registry.resolve(spare(2)), None);
    assert_eq!(game.registry.resolve(handle(brick)), Some(brick));

    let taken = Frame {
        input: idle(),
        delta: 1,
        added: vec![Registration { handle: spare(3), entity: BALL }],
        events: Vec::new(),
        ball: None,
        paddle: None,
    };
    match game.tick(&taken) {
        Err(e) => assert_eq!(e, RegistryError::EntityTaken),
        Ok(_) => panic!("the tick went through"),
    }
}

#[test]
fn a_ball_without_a_body_is_not_launched() {
    let mut game = furnished();
    let waiting = Frame {
        input: Input { left: true, right: false, launch: true },
        delta: 300_000,
        added: Vec::new(),
        events: Vec::new(),
        ball: None,
        paddle: Some(PaddleBody { x: 0, paddle: Paddle { speed: 50_000 } }),
    };
    let commands = run(&mut game, &waiting);
    assert_eq!(commands.ball, None);
    assert_eq!(commands.paddle, None);
    assert_eq!(commands.delta, 200_000);
    assert_eq!(game.state, GameState::NotStarted);
    assert_eq!(game.infoboard.text, "Press SPACE to Start");
}

#[test]
fn a_paddle_without_a_body_is_not_moved() {
    let mut game = furnished();
    let launch = Input { left: false, right: false, launch: true };
    run(&mut game, &frame(launch, Vec::new(), Velocity::zero(), 0));
    let bare = Frame {
        input: Input { left: true, right: false, launch: false },
        delta: 16_667,
        added: Vec::new(),
        events: Vec::new(),
        ball: Some(Velocity { x: 1, y: 0, z: 1 }),
        paddle: None,
    };
    let commands = run(&mut game, &bare);
    assert_eq!(commands.paddle, None);
    assert_eq!(commands.ball, Some(Velocity { x: 20_000, y: 0, z: 20_000 }));
}

#[test]
fn nothing_moves_when_the_game_is_over() {
    let mut game = furnished();
    game.state = GameState::GameOver;
    let keys = Input { left: true, right: false, launch: true };
    let v = Velocity { x: 3, y: 4, z: 5 };
    let commands = run(&mut game, &frame(keys, Vec::new(), v, 100));
    assert_eq!(commands.ball, Some(v));
    assert_eq!(commands.paddle, None);
    assert_eq!(game.state, GameState::GameOver);
    assert_eq!(game.scoreboard.score, 0);
}

#[test]
fn the_display_is_blank_when_the_game_is_over() {
    let mut game = furnished();
    let launch = Input { left: false, right: false, launch: true };
    run(&mut game, &frame(launch, Vec::new(), Velocity::zero(), 0));
    let brick = Entity { id: FIRST_BRICK };
    let events = vec![ContactEvent::Started(handle(BALL), handle(brick))];
    run(&mut game, &frame(idle(), events, Velocity { x: 1, y: 0, z: 1 }, 0));
    assert_eq!(game.score_text, "Score: 1");
    assert_eq!(game.infoboard.text, "");

    game.state = GameState::GameOver;
    game.infoboard.set_prompt("left over");
    run(&mut game, &frame(idle(), Vec::new(), Velocity::zero(), 0));
    assert_eq!(game.state, GameState::GameOver);
    assert_eq!(game.infoboard.text, "");
    assert_eq!(game.score_text, "");
    assert_eq!(game.scoreboard.score, 1);

    run(&mut game, &frame(launch, Vec::new(), Velocity::zero(), 0));
    assert_eq!(game.state, GameState::GameOver);
    assert_eq!(game.infoboard.text, "");
    assert_eq!(game.score_text, "");
}
