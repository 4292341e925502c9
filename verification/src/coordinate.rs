use vstd::prelude::*;
use crate::constants::{BOARD_HEIGHT, BOARD_WIDTH};

verus! {

/// A cell of the game board: x grows to the right, y grows downward.
#[derive(Debug, Clone, Copy, PartialEq, Eq, Structural)]
pub struct Coordinate(pub i32, pub i32);

/// A coordinate lies strictly inside the board, off the one-cell wall band.
pub open spec fn in_interior(c: Coordinate) -> bool {
    &&& 0 < c.0 < BOARD_WIDTH - 1
    &&& 0 < c.1 < BOARD_HEIGHT - 1
}

/// Manhattan distance between two cells.
pub open spec fn manhattan(a: Coordinate, b: Coordinate) -> int {
    let dx = if a.0 >= b.0 { a.0 - b.0 } else { b.0 - a.0 };
    let dy = if a.1 >= b.1 { a.1 - b.1 } else { b.1 - a.1 };
    dx + dy
}

/// Whether `c` occurs among `cells`.
pub fn contains_coord(cells: &Vec<Coordinate>, c: Coordinate) -> (r: bool)
    ensures
        r == cells@.contains(c),
{
    let mut i: usize = 0;
    while i < cells.len()
        invariant
            0 <= i <= cells@.len(),
            forall|j: int| 0 <= j < i ==> #[trigger] cells@[j] != c,
        decreases cells@.len() - i,
    {
        if cells[i] == c {
            return true;
        }
        i += 1;
    }
    false
}

} // verus!
