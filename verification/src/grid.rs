//! Arena bounds, tile positions and the four cardinal directions.

use vstd::prelude::*;

verus! {

/// Number of tile columns in the arena.
pub const ARENA_WIDTH: u32 = 20;

/// Number of tile rows in the arena.
pub const ARENA_HEIGHT: u32 = 20;

/// An integer tile coordinate; equality is exact integer comparison.
#[derive(PartialEq, Eq, Structural, Clone, Copy, Debug)]
pub struct Position {
    pub x: i32,
    pub y: i32,
}

/// One of the four cardinal directions a player can face.
#[derive(PartialEq, Eq, Structural, Clone, Copy, Debug)]
pub enum Direction {
    Up,
    Down,
    Right,
    Left,
}

/// Unit displacement of a direction: Up is (0, 1), Down (0, -1),
/// Left (-1, 0) and Right (1, 0).
pub open spec fn delta(d: Direction) -> (int, int) {
    match d {
        Direction::Up => (0, 1),
        Direction::Down => (0, -1),
        Direction::Left => (-1, 0),
        Direction::Right => (1, 0),
    }
}

/// A coordinate pair lies inside the arena rectangle.
pub open spec fn in_bounds(c: (int, int)) -> bool {
    0 <= c.0 < ARENA_WIDTH && 0 <= c.1 < ARENA_HEIGHT
}

/// Both coordinates of `p` leave room for a one-step displacement in `i32`.
pub open spec fn pos_in_range(p: Position) -> bool {
    i32::MIN < p.x < i32::MAX && i32::MIN < p.y < i32::MAX
}

impl Direction {
    /// Unit displacement of this direction as machine integers.
    pub fn delta(self) -> (d: (i32, i32))
        ensures
            d.0 == delta(self).0,
            d.1 == delta(self).1,
    {
        match self {
            Direction::Up => (0, 1),
            Direction::Down => (0, -1),
            Direction::Left => (-1, 0),
            Direction::Right => (1, 0),
        }
    }
}

/// The cell one step from `p` in direction `d`.
pub fn target_cell(p: Position, d: Direction) -> (t: Position)
    requires
        pos_in_range(p),
    ensures
        t.x == p.x + delta(d).0,
        t.y == p.y + delta(d).1,
{
    let (dx, dy): (i32, i32) = d.delta();
    Position { x: p.x + dx, y: p.y + dy }
}

} // verus!
