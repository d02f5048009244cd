use vstd::prelude::*;

verus! {

/// A cell of the board, or a displacement between cells.
#[derive(Clone, Copy, Debug, PartialEq, Eq, Structural)]
pub struct Position {
    pub x: usize,
    pub y: usize,
}

impl Position {
    pub fn new(x: usize, y: usize) -> (r: Position)
        ensures
            r == (Position { x, y }),
    {
        Position { x, y }
    }

    /// Component-wise sum of a coordinate and a displacement.
    pub fn add(self, other: Position) -> (r: Position)
        requires
            self.x + other.x <= usize::MAX,
            self.y + other.y <= usize::MAX,
        ensures
            r.x == self.x + other.x,
            r.y == self.y + other.y,
    {
        Position { x: self.x + other.x, y: self.y + other.y }
    }

    /// The neighbouring cell in direction `d`, with the origin top-left and
    /// rows growing downward. Meaningful where the step stays in range.
    pub open spec fn step(self, d: Direction) -> Position {
        match d {
            Direction::Up => Position { x: self.x, y: (self.y - 1) as usize },
            Direction::Down => Position { x: self.x, y: (self.y + 1) as usize },
            Direction::Left => Position { x: (self.x - 1) as usize, y: self.y },
            Direction::Right => Position { x: (self.x + 1) as usize, y: self.y },
        }
    }

    /// Moving one cell in direction `d` neither underflows nor overflows.
    pub open spec fn can_step(self, d: Direction) -> bool {
        match d {
            Direction::Up => self.y > 0,
            Direction::Down => self.y < usize::MAX,
            Direction::Left => self.x > 0,
            Direction::Right => self.x < usize::MAX,
        }
    }
}

/// A movement intent.
#[derive(Clone, Copy, Debug, PartialEq, Eq, Structural)]
pub enum Direction {
    Up,
    Left,
    Down,
    Right,
}

impl Default for Direction {
    fn default() -> (r: Direction)
        ensures
            r == Direction::Right,
    {
        Direction::Right
    }
}

impl Direction {
    /// The direction pointing the other way.
    pub open spec fn opposite(self) -> Direction {
        match self {
            Direction::Up => Direction::Down,
            Direction::Down => Direction::Up,
            Direction::Left => Direction::Right,
            Direction::Right => Direction::Left,
        }
    }
}

/// Whether `b` is the exact reverse of `a` (Up and Down, Left and Right).
pub fn is_reverse(a: Direction, b: Direction) -> (r: bool)
    ensures
        r == (b == a.opposite()),
{
    match (a, b) {
        (Direction::Up, Direction::Down) => true,
        (Direction::Down, Direction::Up) => true,
        (Direction::Left, Direction::Right) => true,
        (Direction::Right, Direction::Left) => true,
        _ => false,
    }
}

} // verus!
