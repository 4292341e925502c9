use vstd::prelude::*;
use crate::coordinate::Coordinate;

verus! {

/// One of the four cardinal headings the snake can travel in.
#[derive(Debug, Clone, Copy, PartialEq, Eq, Structural)]
pub enum Direction {
    Up,
    Down,
    Left,
    Right,
}

impl Direction {
    /// The heading that points the opposite way.
    pub open spec fn opposite_spec(self) -> Direction {
        match self {
            Direction::Up => Direction::Down,
            Direction::Down => Direction::Up,
            Direction::Left => Direction::Right,
            Direction::Right => Direction::Left,
        }
    }

    pub fn opposite(&self) -> (r: Direction)
        ensures
            r == self.opposite_spec(),
    {
        match self {
            Direction::Up => Direction::Down,
            Direction::Down => Direction::Up,
            Direction::Left => Direction::Right,
            Direction::Right => Direction::Left,
        }
    }

    /// Horizontal displacement of one move along this heading.
    pub open spec fn dx(self) -> int {
        match self {
            Direction::Left => -1,
            Direction::Right => 1,
            _ => 0,
        }
    }

    /// Vertical displacement of one move along this heading.
    pub open spec fn dy(self) -> int {
        match self {
            Direction::Up => -1,
            Direction::Down => 1,
            _ => 0,
        }
    }
}

/// The cell reached by one move from `c` along `d`.
pub open spec fn next_coord(c: Coordinate, d: Direction) -> Coordinate {
    Coordinate((c.0 + d.dx()) as i32, (c.1 + d.dy()) as i32)
}

/// No heading is its own opposite.
pub proof fn lemma_opposite_is_other(d: Direction)
    ensures
        d.opposite_spec() != d,
        d.opposite_spec().opposite_spec() == d,
{
}

} // verus!
