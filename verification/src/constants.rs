use vstd::prelude::*;

verus! {

/// Width of the game board in cells, wall band included.
pub const BOARD_WIDTH: i32 = 20;

/// Height of the game board in cells, wall band included.
pub const BOARD_HEIGHT: i32 = 10;

} // verus!
