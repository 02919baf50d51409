use breakout::contact::{classify, classify_all, obstacle_kind, Contact, ContactEvent, ContactKind};
use breakout::hud::Scoreboard;
use breakout::registry::{BodyHandle, Entity, Registry};
use breakout::resolver::{contact_system, resolve, resolve_all, Removal};
use breakout::units::{reverse, Velocity};
use breakout::world::{Tag, TagSet, World};

const BALL: Entity = Entity { id: 1 };
const PADDLE: Entity = Entity { id: 2 };
const WALL: Entity = Entity { id: 3 };
const TOP: Entity = Entity { id: 4 };
const BOARD: Entity = Entity { id: 5 };
const BRICK7: Entity = Entity { id: 7 };
const BRICK8: Entity = Entity { id: 8 };

fn handle(entity: Entity) -> BodyHandle {
    BodyHandle { index: entity.id * 10, generation: 1 }
}

fn started(a: Entity, b: Entity) -> ContactEvent {
    ContactEvent::Started(handle(a), handle(b))
}

fn arena() -> (Registry, World) {
    let mut registry = Registry::new();
    let mut world = World::new();
    let cast = [
        (BALL, TagSet::only(Tag::Ball)),
        (PADDLE, TagSet::only(Tag::Paddle)),
        (WALL, TagSet::only(Tag::Wall)),
        (TOP, TagSet::only(Tag::TopWall)),
        (BOARD, TagSet::empty()),
        (BRICK7, TagSet::only(Tag::Brick)),
        (BRICK8, TagSet::only(Tag::Brick)),
    ];
    for (entity, tags) in cast {
        assert!(world.spawn(entity, tags));
        assert_eq!(registry.register(handle(entity), entity), Ok(()));
    }
    (registry, world)
}

fn contact(kind: ContactKind, other: Entity) -> Contact {
    Contact { kind, ball: BALL, other }
}

#[test]
fn obstacle_kind_follows_the_tags() {
    assert_eq!(obstacle_kind(TagSet::only(Tag::Brick)), Some(ContactKind::BallBrick));
    assert_eq!(obstacle_kind(TagSet::only(Tag::Wall)), Some(ContactKind::BallSideWall));
    assert_eq!(obstacle_kind(TagSet::only(Tag::TopWall)), Some(ContactKind::BallTopWall));
    assert_eq!(obstacle_kind(TagSet::only(Tag::Paddle)), Some(ContactKind::BallPaddle));
    assert_eq!(obstacle_kind(TagSet::empty()), None);
    assert_eq!(obstacle_kind(TagSet::only(Tag::Ball)), None);
}

#[test]
fn obstacle_kind_takes_the_first_tag_in_rank() {
    let all = TagSet::only(Tag::Paddle).with(Tag::TopWall).with(Tag::Wall).with(Tag::Brick);
    assert_eq!(obstacle_kind(all), Some(ContactKind::BallBrick));
    let walls = TagSet::only(Tag::Paddle).with(Tag::TopWall).with(Tag::Wall);
    assert_eq!(obstacle_kind(walls), Some(ContactKind::BallSideWall));
    let top = TagSet::only(Tag::Paddle).with(Tag::TopWall);
    assert_eq!(obstacle_kind(top), Some(ContactKind::BallTopWall));
}

#[test]
fn classify_names_each_kind() {
    let (registry, world) = arena();
    assert_eq!(
        classify(&registry, &world, started(BALL, BRICK7)),
        Some(contact(ContactKind::BallBrick, BRICK7))
    );
    assert_eq!(
        classify(&registry, &world, started(BALL, WALL)),
        Some(contact(ContactKind::BallSideWall, WALL))
    );
    assert_eq!(
        classify(&registry, &world, started(BALL, TOP)),
        Some(contact(ContactKind::BallTopWall, TOP))
    );
    assert_eq!(
        classify(&registry, &world, started(BALL, PADDLE)),
        Some(contact(ContactKind::BallPaddle, PADDLE))
    );
}

#[test]
fn classify_puts_the_ball_first_whatever_the_order() {
    let (registry, world) = arena();
    assert_eq!(
        classify(&registry, &world, started(BRICK7, BALL)),
        Some(contact(ContactKind::BallBrick, BRICK7))
    );
    assert_eq!(
        classify(&registry, &world, started(PADDLE, BALL)),
        Some(contact(ContactKind::BallPaddle, PADDLE))
    );
}

#[test]
fn contact_with_unknown_handle_is_dropped() {
    let (registry, world) = arena();
    let stranger = BodyHandle { index: 999, generation: 1 };
    assert_eq!(classify(&registry, &world, ContactEvent::Started(handle(BALL), stranger)), None);
    assert_eq!(classify(&registry, &world, ContactEvent::Started(stranger, handle(BALL))), None);
    assert_eq!(classify(&registry, &world, ContactEvent::Started(stranger, stranger)), None);
    assert_eq!(registry.len(), 7);
    assert!(world.is_alive(BALL));
}

#[test]
fn contact_without_a_ball_is_dropped() {
    let (registry, world) = arena();
    assert_eq!(classify(&registry, &world, started(BRICK7, WALL)), None);
    assert_eq!(classify(&registry, &world, started(PADDLE, WALL)), None);
    assert_eq!(classify(&registry, &world, started(BRICK7, BRICK8)), None);
}

#[test]
fn contact_between_two_balls_is_dropped() {
    let (mut registry, mut world) = arena();
    let second = Entity { id: 50 };
    assert!(world.spawn(second, TagSet::only(Tag::Ball).with(Tag::Brick)));
    assert_eq!(registry.register(handle(second), second), Ok(()));
    assert_eq!(classify(&registry, &world, started(BALL, second)), None);
    assert_eq!(classify(&registry, &world, started(second, BALL)), None);
    assert_eq!(classify(&registry, &world, started(BALL, BALL)), None);
}

#[test]
fn contact_with_an_untagged_body_is_dropped() {
    let (registry, world) = arena();
    assert_eq!(classify(&registry, &world, started(BALL, BOARD)), None);
    assert_eq!(classify(&registry, &world, started(BOARD, BALL)), None);
}

#[test]
fn contact_with_a_despawned_entity_is_dropped() {
    let (registry, mut world) = arena();
    assert!(world.despawn(BRICK7));
    assert_eq!(classify(&registry, &world, started(BALL, BRICK7)), None);
    assert!(world.despawn(BALL));
    assert_eq!(classify(&registry, &world, started(BALL, BRICK8)), None);
}

#[test]
fn the_end_of_a_contact_is_dropped() {
    let (registry, world) = arena();
    assert_eq!(
        classify(&registry, &world, ContactEvent::Stopped(handle(BALL), handle(BRICK7))),
        None
    );
}

#[test]
fn classify_all_keeps_the_order_of_arrival() {
    let (registry, world) = arena();
    let events = vec![
        started(WALL, BALL),
        started(BRICK7, WALL),
        ContactEvent::Stopped(handle(BALL), handle(PADDLE)),
        started(BALL, BRICK8),
        ContactEvent::Started(handle(BALL), BodyHandle { index: 999, generation: 1 }),
        started(BALL, BRICK7),
        started(BALL, BRICK8),
    ];
    assert_eq!(
        classify_all(&registry, &world, &events),
        vec![
            contact(ContactKind::BallSideWall, WALL),
            contact(ContactKind::BallBrick, BRICK8),
            contact(ContactKind::BallBrick, BRICK7),
            contact(ContactKind::BallBrick, BRICK8),
        ]
    );
    assert_eq!(classify_all(&registry, &world, &Vec::new()), Vec::new());
}

#[test]
fn brick_contact_scores_removes_and_bounces() {
    let (mut registry, mut world) = arena();
    let mut scoreboard = Scoreboard::new();
    let mut velocity = Velocity { x: 20_000, y: -3, z: 20_000 };
    let mut removed = Vec::new();
    let hit = classify(&registry, &world, started(BALL, BRICK7)).unwrap();
    resolve(hit, &mut registry, &mut world, &mut scoreboard, &mut velocity, &mut removed);
    assert_eq!(scoreboard.score, 1);
    assert_eq!(velocity, Velocity { x: 20_000, y: -3, z: -20_000 });
    assert_eq!(removed, vec![Removal { handle: handle(BRICK7), entity: BRICK7 }]);
    assert_eq!(registry.resolve(handle(BRICK7)), None);
    assert_eq!(registry.handle_of(BRICK7), None);
    assert!(!world.is_alive(BRICK7));
    assert_eq!(registry.resolve(handle(BRICK8)), Some(BRICK8));
    assert_eq!(registry.len(), 6);
}

#[test]
fn stale_brick_contact_changes_nothing() {
    let (mut registry, mut world) = arena();
    let mut scoreboard = Scoreboard::new();
    let mut velocity = Velocity { x: 1, y: 2, z: 3 };
    let mut removed = Vec::new();
    let hit = contact(ContactKind::BallBrick, BRICK7);
    resolve(hit, &mut registry, &mut world, &mut scoreboard, &mut velocity, &mut removed);
    resolve(hit, &mut registry, &mut world, &mut scoreboard, &mut velocity, &mut removed);
    assert_eq!(scoreboard.score, 1);
    assert_eq!(velocity, Velocity { x: 1, y: 2, z: -3 });
    assert_eq!(removed.len(), 1);
    assert_eq!(registry.len(), 6);
    assert_eq!(classify(&registry, &world, started(BALL, BRICK7)), None);
}

#[test]
fn brick_contact_for_an_entity_without_a_body_changes_nothing() {
    let (mut registry, mut world) = arena();
    let mut scoreboard = Scoreboard::new();
    let mut velocity = Velocity { x: 1, y: 2, z: 3 };
    let mut removed = Vec::new();
    let ghost = Entity { id: 4242 };
    assert!(world.spawn(ghost, TagSet::only(Tag::Brick)));
    resolve(
        contact(ContactKind::BallBrick, ghost),
        &mut registry,
        &mut world,
        &mut scoreboard,
        &mut velocity,
        &mut removed,
    );
    assert_eq!(scoreboard.score, 0);
    assert_eq!(velocity, Velocity { x: 1, y: 2, z: 3 });
    assert!(removed.is_empty());
    assert!(world.is_alive(ghost));
}

#[test]
fn paddle_and_top_wall_turn_the_ball_along_z() {
    let (mut registry, mut world) = arena();
    let mut scoreboard = Scoreboard::new();
    let mut velocity = Velocity { x: -20_000, y: 0, z: -20_000 };
    let mut removed = Vec::new();
    resolve(
        contact(ContactKind::BallPaddle, PADDLE),
        &mut registry,
        &mut world,
        &mut scoreboard,
        &mut velocity,
        &mut removed,
    );
    assert_eq!(velocity, Velocity { x: -20_000, y: 0, z: 20_000 });
    resolve(
        contact(ContactKind::BallTopWall, TOP),
        &mut registry,
        &mut world,
        &mut scoreboard,
        &mut velocity,
        &mut removed,
    );
    assert_eq!(velocity, Velocity { x: -20_000, y: 0, z: -20_000 });
    assert_eq!(scoreboard.score, 0);
    assert!(removed.is_empty());
    assert_eq!(registry.len(), 7);
    assert!(world.is_alive(PADDLE) && world.is_alive(TOP));
}

#[test]
fn side_wall_twice_restores_the_velocity() {
    let (mut registry, mut world) = arena();
    let mut scoreboard = Scoreboard::new();
    let start = Velocity { x: 20_000, y: -7, z: -20_000 };
    let mut velocity = start;
    let mut removed = Vec::new();
    let hit = contact(ContactKind::BallSideWall, WALL);
    resolve(hit, &mut registry, &mut world, &mut scoreboard, &mut velocity, &mut removed);
    assert_eq!(velocity, Velocity { x: -20_000, y: -7, z: -20_000 });
    resolve(hit, &mut registry, &mut world, &mut scoreboard, &mut velocity, &mut removed);
    assert_eq!(velocity, start);
    assert_eq!(scoreboard.score, 0);
    assert!(removed.is_empty());
}

#[test]
fn corner_hit_gives_the_same_velocity_in_either_order() {
    let wall = contact(ContactKind::BallSideWall, WALL);
    let top = contact(ContactKind::BallTopWall, TOP);
    let start = Velocity { x: 20_000, y: 0, z: 20_000 };

    let (mut registry, mut world) = arena();
    let mut scoreboard = Scoreboard::new();
    let mut one = start;
    let mut removed = Vec::new();
    resolve_all(
        &vec![wall, top],
        &mut registry,
        &mut world,
        &mut scoreboard,
        &mut one,
        &mut removed,
    );
    let mut other = start;
    resolve_all(
        &vec![top, wall],
        &mut registry,
        &mut world,
        &mut scoreboard,
        &mut other,
        &mut removed,
    );
    assert_eq!(one, Velocity { x: -20_000, y: 0, z: -20_000 });
    assert_eq!(one, other);
}

#[test]
fn the_least_component_turns_into_the_greatest() {
    assert_eq!(reverse(i64::MIN), i64::MAX);
    assert_eq!(reverse(i64::MAX), -i64::MAX);
    assert_eq!(reverse(0), 0);
    assert_eq!(reverse(-5), 5);
    let v = Velocity { x: i64::MIN, y: 1, z: i64::MIN };
    assert_eq!(v.flip_x(), Velocity { x: i64::MAX, y: 1, z: i64::MIN });
    assert_eq!(v.flip_z(), Velocity { x: i64::MIN, y: 1, z: i64::MAX });
    assert_eq!(v.flip_x().flip_x(), Velocity { x: i64::MIN + 1, y: 1, z: i64::MIN });
    assert_eq!(Velocity::zero(), Velocity { x: 0, y: 0, z: 0 });
}

#[test]
fn the_score_stops_at_the_greatest_count() {
    let (mut registry, mut world) = arena();
    let mut scoreboard = Scoreboard { score: u64::MAX - 1 };
    let mut velocity = Velocity { x: 0, y: 0, z: 1 };
    let mut removed = Vec::new();
    resolve_all(
        &vec![contact(ContactKind::BallBrick, BRICK7), contact(ContactKind::BallBrick, BRICK8)],
        &mut registry,
        &mut world,
        &mut scoreboard,
        &mut velocity,
        &mut removed,
    );
    assert_eq!(scoreboard.score, u64::MAX);
    assert_eq!(removed.len(), 2);
    assert_eq!(velocity, Velocity { x: 0, y: 0, z: 1 });
}

#[test]
fn increment_counts_one_point() {
    let mut scoreboard = Scoreboard::new();
    assert_eq!(scoreboard.score, 0);
    scoreboard.increment();
    scoreboard.increment();
    assert_eq!(scoreboard.score, 2);
    let mut full = Scoreboard { score: u64::MAX };
    full.increment();
    assert_eq!(full.score, u64::MAX);
}

#[test]
fn contact_system_scores_each_brick_once() {
    let (mut registry, mut world) = arena();
    let mut scoreboard = Scoreboard::new();
    let mut velocity = Velocity { x: 20_000, y: 0, z: 20_000 };
    let events = vec![
        started(BALL, BRICK7),
        started(BRICK7, BALL),
        started(WALL, BALL),
        started(BRICK7, BRICK8),
        started(BALL, BRICK8),
        ContactEvent::Stopped(handle(BALL), handle(BRICK8)),
    ];
    let removed = contact_system(&mut registry, &mut world, &mut scoreboard, &events, &mut velocity);
    assert_eq!(scoreboard.score, 2);
    assert_eq!(
        removed,
        vec![
            Removal { handle: handle(BRICK7), entity: BRICK7 },
            Removal { handle: handle(BRICK8), entity: BRICK8 },
        ]
    );
    assert_eq!(velocity, Velocity { x: -20_000, y: 0, z: 20_000 });
    assert_eq!(registry.len(), 5);
    assert!(!world.is_alive(BRICK7) && !world.is_alive(BRICK8));

    let later = contact_system(&mut registry, &mut world, &mut scoreboard, &events, &mut velocity);
    assert!(later.is_empty());
    assert_eq!(scoreboard.score, 2);
    assert_eq!(velocity, Velocity { x: 20_000, y: 0, z: 20_000 });
}

#[test]
fn contact_system_without_events_changes_nothing() {
    let (mut registry, mut world) = arena();
    let mut scoreboard = Scoreboard::new();
    let mut velocity = Velocity { x: 4, y: 5, z: 6 };
    let removed =
        contact_system(&mut registry, &mut world, &mut scoreboard, &Vec::new(), &mut velocity);
    assert!(removed.is_empty());
    assert_eq!(scoreboard.score, 0);
    assert_eq!(velocity, Velocity { x: 4, y: 5, z: 6 });
    assert_eq!(registry.len(), 7);
}
