use vstd::prelude::*;
use rand::Rng;
use crate::constants::{BOARD_HEIGHT, BOARD_WIDTH};
use crate::coordinate::{contains_coord, in_interior, Coordinate};
use crate::snake::Snake;

verus! {

/// The food pellet: a single cell that, when placed, lies in the interior of
/// the board and off the snake's body.
#[derive(Debug)]
pub struct Food {
    pub position: Coordinate,
}

/// Relies on rand::Rng::gen_range on rand::thread_rng: returns a uniformly
/// sampled value of the half-open range, and panics only on an empty range.
#[verifier::external_body]
fn random_in_range(low: i32, high: i32) -> (r: i32)
    requires
        low < high,
    ensures
        low <= r < high,
{
    rand::thread_rng().gen_range(low..high)
}

/// The first interior cell, in column-then-row scan order, that `cells` does
/// not occupy; `None` exactly when `cells` covers the whole interior.
fn first_free_cell(cells: &Vec<Coordinate>) -> (r: Option<Coordinate>)
    ensures
        match r {
            Some(c) => in_interior(c) && !cells@.contains(c),
            None => forall|c: Coordinate| #[trigger] in_interior(c) ==> cells@.contains(c),
        },
{
    let mut x: i32 = 1;
    while x < BOARD_WIDTH - 1
        invariant
            1 <= x <= BOARD_WIDTH - 1,
            forall|c: Coordinate| #[trigger] in_interior(c) && c.0 < x ==> cells@.contains(c),
        decreases BOARD_WIDTH - 1 - x,
    {
        let mut y: i32 = 1;
        while y < BOARD_HEIGHT - 1
            invariant
                1 <= x < BOARD_WIDTH - 1,
                1 <= y <= BOARD_HEIGHT - 1,
                forall|c: Coordinate| #[trigger] in_interior(c) && c.0 < x ==> cells@.contains(c),
                forall|c: Coordinate| #[trigger] in_interior(c) && c.0 == x && c.1 < y
                    ==> cells@.contains(c),
            decreases BOARD_HEIGHT - 1 - y,
        {
            let candidate = Coordinate(x, y);
            if !contains_coord(cells, candidate) {
                return Some(candidate);
            }
            y += 1;
        }
        x += 1;
    }
    None
}

/// Picks a cell for a fresh pellet: random interior cells are tried first,
/// and if the random trials keep hitting the snake, the interior is scanned
/// for a free cell. `None` exactly when the snake covers the whole interior.
pub fn place_food(snake: &Snake) -> (r: Option<Coordinate>)
    ensures
        match r {
            Some(c) => in_interior(c) && !snake@.body.contains(c),
            None => forall|c: Coordinate| #[trigger] in_interior(c) ==> snake@.body.contains(c),
        },
{
    let mut tries: usize = 0;
    while tries < 100
        decreases 100 - tries,
    {
        let position = Coordinate(
            random_in_range(1, BOARD_WIDTH - 1),
            random_in_range(1, BOARD_HEIGHT - 1),
        );

        if !contains_coord(&snake.body, position) {
            return Some(position);
        }
        tries += 1;
    }

    first_free_cell(&snake.body)
}

impl Food {
    /// Places a fresh pellet on some free interior cell, which the
    /// precondition guarantees to exist.
    pub fn new(snake: &Snake) -> (f: Food)
        requires
            exists|c: Coordinate| #[trigger] in_interior(c) && !snake@.body.contains(c),
        ensures
            in_interior(f.position),
            !snake@.body.contains(f.position),
    {
        match place_food(snake) {
            Some(position) => Food { position },
            None => {
                // Never reached: the precondition provides a free cell, so
                // the exhaustive scan cannot come back empty.
                proof {
                    let c0 = choose|c: Coordinate|
                        #[trigger] in_interior(c) && !snake@.body.contains(c);
                    assert(snake@.body.contains(c0));
                }
                Food { position: Coordinate(1, 1) }
            },
        }
    }
}

} // verus!
