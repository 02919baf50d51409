//! The bodies that a session starts with: the ball, the paddle, the walls,
//! the board and the grid of bricks.

use vstd::prelude::*;
use crate::paddle::PADDLE_MAX_X;
use crate::world::{Tag, TagSet};

verus! {

/// How the physics layer moves a body.
#[derive(Clone, Copy, Debug, PartialEq, Eq, Structural)]
pub enum BodyKind {
    /// Moved by forces and contacts.
    Dynamic,
    /// Moved by command: its next position is set from outside.
    Kinematic,
    /// Never moved.
    Fixed,
}

/// The collision shape of a body, by its half extents.
#[derive(Clone, Copy, Debug, PartialEq, Eq, Structural)]
pub enum Shape {
    Sphere { radius: i64 },
    Cuboid { half_x: i64, half_y: i64, half_z: i64 },
}

/// A point of the arena.
#[derive(Clone, Copy, Debug, PartialEq, Eq, Structural)]
pub struct Position {
    pub x: i64,
    pub y: i64,
    pub z: i64,
}

/// What is needed to create one entity with its body.
#[derive(Clone, Copy, Debug, PartialEq, Eq, Structural)]
pub struct Blueprint {
    pub tags: TagSet,
    pub kind: BodyKind,
    pub shape: Shape,
    pub position: Position,
    /// The turn about the vertical axis, in thousandths of a radian.
    pub yaw: i64,
}

/// The number of rows of bricks.
pub const BRICK_ROWS: usize = 6;

/// The number of bricks in a row.
pub const BRICK_COLUMNS: usize = 5;

/// The distance between the centres of two rows.
pub const ROW_GAP: i64 = 5_000;

/// The distance between the centres of two bricks of a row.
pub const COLUMN_GAP: i64 = 10_000;

/// The height of the bricks' and the paddle's centres above the ground.
pub const DECK_HEIGHT: i64 = 3_000;

/// The distance of each side wall's centre from the middle of the arena.
pub const WALL_X: i64 = 31_500;

/// Half the thickness of a side wall.
pub const WALL_HALF_X: i64 = 2_000;

/// Where along the arena the ball starts.
pub const BALL_START_Z: i64 = -20_000;

/// Where along the arena the paddle runs.
pub const PADDLE_Z: i64 = -35_000;

/// Half the width of the paddle and of a brick.
pub const PADDLE_HALF_X: i64 = 4_000;

/// The collision shape that the paddle and the bricks share.
pub open spec fn spec_slab() -> Shape {
    Shape::Cuboid { half_x: PADDLE_HALF_X, half_y: 1_000, half_z: 1_000 }
}

/// The collision shape that the paddle and the bricks share.
#[verifier::when_used_as_spec(spec_slab)]
pub fn slab() -> (s: Shape)
    ensures
        s == spec_slab(),
{
    Shape::Cuboid { half_x: PADDLE_HALF_X, half_y: 1_000, half_z: 1_000 }
}

/// The brick in row `row` and column `column` of the grid. The rows lie
/// `ROW_GAP` apart, the first of them one gap beyond the middle of the arena;
/// the columns lie `COLUMN_GAP` apart, with the middle column on the axis.
pub open spec fn brick_at(row: int, column: int) -> Blueprint {
    Blueprint {
        tags: TagSet::spec_only(Tag::Brick),
        kind: BodyKind::Dynamic,
        shape: spec_slab(),
        position: Position {
            x: (COLUMN_GAP * (column - 2)) as i64,
            y: DECK_HEIGHT,
            z: (ROW_GAP * (row + 1)) as i64,
        },
        yaw: 0,
    }
}

/// The grid of bricks, row by row, each row from lowest to highest `x`.
pub fn setup_blocks() -> (bricks: Vec<Blueprint>)
    ensures
        bricks@.len() == BRICK_ROWS * BRICK_COLUMNS,
        forall|i: int|
            0 <= i < bricks@.len() ==> #[trigger] bricks@[i] == brick_at(
                i / BRICK_COLUMNS as int,
                i % BRICK_COLUMNS as int,
            ),
{
    let mut bricks: Vec<Blueprint> = Vec::new();
    let mut row: usize = 0;
    while row < BRICK_ROWS
        invariant
            row <= BRICK_ROWS,
            bricks@.len() == row * BRICK_COLUMNS,
            forall|i: int|
                0 <= i < bricks@.len() ==> #[trigger] bricks@[i] == brick_at(
                    i / BRICK_COLUMNS as int,
                    i % BRICK_COLUMNS as int,
                ),
        decreases BRICK_ROWS - row,
    {
        let z: i64 = ROW_GAP * (row as i64 + 1);
        let mut column: usize = 0;
        while column < BRICK_COLUMNS
            invariant
                row < BRICK_ROWS,
                column <= BRICK_COLUMNS,
                z == ROW_GAP * (row + 1),
                bricks@.len() == row * BRICK_COLUMNS + column,
                forall|i: int|
                    0 <= i < bricks@.len() ==> #[trigger] bricks@[i] == brick_at(
                        i / BRICK_COLUMNS as int,
                        i % BRICK_COLUMNS as int,
                    ),
            decreases BRICK_COLUMNS - column,
        {
            let x: i64 = COLUMN_GAP * (column as i64 - 2);
            let brick = Blueprint {
                tags: TagSet::only(Tag::Brick),
                kind: BodyKind::Dynamic,
                shape: slab(),
                position: Position { x, y: DECK_HEIGHT, z },
                yaw: 0,
            };
            assert(brick == brick_at(row as int, column as int));
            bricks.push(brick);
            column = column + 1;
        }
        row = row + 1;
    }
    bricks
}

/// The ball: a sphere that moves freely, at rest before the paddle.
pub open spec fn ball_blueprint() -> Blueprint {
    Blueprint {
        tags: TagSet::spec_only(Tag::Ball),
        kind: BodyKind::Dynamic,
        shape: Shape::Sphere { radius: 1_000 },
        position: Position { x: 0, y: 2_500, z: BALL_START_Z },
        yaw: 0,
    }
}

/// The paddle: a slab moved by command, at the near end of the arena.
pub open spec fn paddle_blueprint() -> Blueprint {
    Blueprint {
        tags: TagSet::spec_only(Tag::Paddle),
        kind: BodyKind::Kinematic,
        shape: spec_slab(),
        position: Position { x: 0, y: DECK_HEIGHT, z: PADDLE_Z },
        yaw: 0,
    }
}

/// A side wall at the given `x`.
pub open spec fn side_wall_blueprint(x: i64) -> Blueprint {
    Blueprint {
        tags: TagSet::spec_only(Tag::Wall),
        kind: BodyKind::Fixed,
        shape: Shape::Cuboid { half_x: WALL_HALF_X, half_y: 3_000, half_z: 40_000 },
        position: Position { x, y: 1_000, z: 0 },
        yaw: 0,
    }
}

/// The top wall: a wall at the far end of the arena, turned a quarter about
/// the vertical axis so that it lies across.
pub open spec fn top_wall_blueprint() -> Blueprint {
    Blueprint {
        tags: TagSet::spec_only(Tag::TopWall),
        kind: BodyKind::Fixed,
        shape: Shape::Cuboid { half_x: 1_000, half_y: 3_000, half_z: 30_000 },
        position: Position { x: 0, y: 1_000, z: 39_000 },
        yaw: 1_570,
    }
}

/// The board that everything lies on. It carries no tag: a contact with it
/// means nothing to the game.
pub open spec fn board_blueprint() -> Blueprint {
    Blueprint {
        tags: TagSet::spec_empty(),
        kind: BodyKind::Fixed,
        shape: Shape::Cuboid { half_x: 30_000, half_y: 2_000, half_z: 40_000 },
        position: Position { x: 0, y: 0, z: 0 },
        yaw: 0,
    }
}

/// The fixed furniture of the arena.
pub open spec fn arena() -> Seq<Blueprint> {
    seq![
        ball_blueprint(),
        paddle_blueprint(),
        side_wall_blueprint(WALL_X),
        side_wall_blueprint((-WALL_X) as i64),
        top_wall_blueprint(),
        board_blueprint(),
    ]
}

/// The bodies that every session starts with, apart from the bricks: the
/// ball, the paddle, the two side walls, the top wall and the board, in this
/// order.
pub fn setup() -> (bodies: Vec<Blueprint>)
    ensures
        bodies@ == arena(),
{
    let side = Shape::Cuboid { half_x: WALL_HALF_X, half_y: 3_000, half_z: 40_000 };
    let mut bodies: Vec<Blueprint> = Vec::new();
    bodies.push(
        Blueprint {
            tags: TagSet::only(Tag::Ball),
            kind: BodyKind::Dynamic,
            shape: Shape::Sphere { radius: 1_000 },
            position: Position { x: 0, y: 2_500, z: BALL_START_Z },
            yaw: 0,
        },
    );
    bodies.push(
        Blueprint {
            tags: TagSet::only(Tag::Paddle),
            kind: BodyKind::Kinematic,
            shape: slab(),
            position: Position { x: 0, y: DECK_HEIGHT, z: PADDLE_Z },
            yaw: 0,
        },
    );
    bodies.push(
        Blueprint {
            tags: TagSet::only(Tag::Wall),
            kind: BodyKind::Fixed,
            shape: side,
            position: Position { x: WALL_X, y: 1_000, z: 0 },
            yaw: 0,
        },
    );
    bodies.push(
        Blueprint {
            tags: TagSet::only(Tag::Wall),
            kind: BodyKind::Fixed,
            shape: side,
            position: Position { x: -WALL_X, y: 1_000, z: 0 },
            yaw: 0,
        },
    );
    bodies.push(
        Blueprint {
            tags: TagSet::only(Tag::TopWall),
            kind: BodyKind::Fixed,
            shape: Shape::Cuboid { half_x: 1_000, half_y: 3_000, half_z: 30_000 },
            position: Position { x: 0, y: 1_000, z: 39_000 },
            yaw: 1_570,
        },
    );
    bodies.push(
        Blueprint {
            tags: TagSet::empty(),
            kind: BodyKind::Fixed,
            shape: Shape::Cuboid { half_x: 30_000, half_y: 2_000, half_z: 40_000 },
            position: Position { x: 0, y: 0, z: 0 },
            yaw: 0,
        },
    );
    assert(bodies@ =~= arena());
    bodies
}

/// The paddle's range is the field between the side walls less the paddle's
/// own half width, so that the paddle at either end of its range just
/// touches a wall.
pub proof fn lemma_paddle_range_fits_between_walls()
    ensures
        PADDLE_MAX_X == WALL_X - WALL_HALF_X - PADDLE_HALF_X,
{
}

/// No two bricks of the grid share a place, and all of them lie inside the
/// paddle's range, ahead of the ball's starting point.
pub proof fn lemma_bricks_are_apart(row: int, column: int, other_row: int, other_column: int)
    requires
        0 <= row < BRICK_ROWS,
        0 <= column < BRICK_COLUMNS,
        0 <= other_row < BRICK_ROWS,
        0 <= other_column < BRICK_COLUMNS,
    ensures
        brick_at(row, column).position == brick_at(other_row, other_column).position ==> row
            == other_row && column == other_column,
        -PADDLE_MAX_X <= brick_at(row, column).position.x <= PADDLE_MAX_X,
        brick_at(row, column).position.z > ball_blueprint().position.z,
{
}

} // verus!
