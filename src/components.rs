use vstd::prelude::*;

verus! {

/// Speed given to a keyboard-controlled entity while a direction is held.
pub const PLAYER_MOVEMENT_SPEED: i32 = 10;

/// One of the four axis-aligned directions of movement.
#[derive(Clone, Copy, Debug, PartialEq, Eq, Structural)]
pub enum Direction {
    Up,
    Down,
    Left,
    Right,
}

/// World-space location of an entity, top-left convention, in whole units.
#[derive(Clone, Copy, Debug, PartialEq, Eq, Structural)]
pub struct Position {
    pub x: i64,
    pub y: i64,
}

impl Position {
    pub fn new(x: i64, y: i64) -> (r: Position)
        ensures
            r == (Position { x, y }),
    {
        Position { x, y }
    }
}

/// Move `speed` units along `dir` on each tick.
#[derive(Clone, Copy, Debug, PartialEq, Eq, Structural)]
pub struct Velocity {
    pub speed: i32,
    pub dir: Direction,
}

/// What to draw for an entity: its sprite sheet and frame geometry.
#[derive(Clone, Debug, PartialEq, Eq)]
pub struct Renderable {
    pub texture_name: String,
    pub src_width: u32,
    pub src_height: u32,
    pub dest_width: u32,
    pub dest_height: u32,
    pub frame: u32,
    pub total_frames: u32,
}

/// Marks an entity as driven by the movement command.
#[derive(Clone, Copy, Debug, Default, PartialEq, Eq, Structural)]
pub struct KeyboardControlled;

/// The latest movement input: stop, or move in a direction.
#[derive(Clone, Copy, Debug, PartialEq, Eq, Structural)]
pub enum MovementCommand {
    Stop,
    Move(Direction),
}

/// The velocity that command `c` leaves in place of `v`: full speed along the
/// commanded direction, or speed zero with the last direction kept.
pub open spec fn commanded(v: Velocity, c: MovementCommand) -> Velocity {
    match c {
        MovementCommand::Move(d) => Velocity { speed: PLAYER_MOVEMENT_SPEED, dir: d },
        MovementCommand::Stop => Velocity { speed: 0, dir: v.dir },
    }
}

/// The coordinates after one step of `v` from `p`, as integers.
pub open spec fn step_x(p: Position, v: Velocity) -> int {
    match v.dir {
        Direction::Left => p.x - v.speed,
        Direction::Right => p.x + v.speed,
        _ => p.x as int,
    }
}

pub open spec fn step_y(p: Position, v: Velocity) -> int {
    match v.dir {
        Direction::Up => p.y - v.speed,
        Direction::Down => p.y + v.speed,
        _ => p.y as int,
    }
}

/// One step of `v` from `p` stays within the coordinate range.
pub open spec fn can_move(p: Position, v: Velocity) -> bool {
    i64::MIN <= step_x(p, v) <= i64::MAX && i64::MIN <= step_y(p, v) <= i64::MAX
}

/// The position one step of `v` away from `p`.
pub open spec fn moved(p: Position, v: Velocity) -> Position {
    Position { x: step_x(p, v) as i64, y: step_y(p, v) as i64 }
}

/// Applies a movement command to one velocity.
pub fn commanded_velocity(v: Velocity, c: MovementCommand) -> (r: Velocity)
    ensures
        r == commanded(v, c),
{
    match c {
        MovementCommand::Move(d) => Velocity { speed: PLAYER_MOVEMENT_SPEED, dir: d },
        MovementCommand::Stop => Velocity { speed: 0, dir: v.dir },
    }
}

/// Moves one position by one step of its velocity.
pub fn moved_position(p: Position, v: Velocity) -> (r: Position)
    requires
        can_move(p, v),
    ensures
        r == moved(p, v),
{
    match v.dir {
        Direction::Left => Position { x: p.x - v.speed as i64, y: p.y },
        Direction::Right => Position { x: p.x + v.speed as i64, y: p.y },
        Direction::Up => Position { x: p.x, y: p.y - v.speed as i64 },
        Direction::Down => Position { x: p.x, y: p.y + v.speed as i64 },
    }
}

} // verus!
