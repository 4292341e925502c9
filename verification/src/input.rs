use vstd::prelude::*;
use crate::direction::Direction;

verus! {

/// Remembers the direction most recently decoded from the keyboard. The
/// decoding of raw key events happens outside the engine; this type keeps
/// the engine's view of it: the last recognized direction, starting right.
#[derive(Debug)]
pub struct InputHandler {
    direction: Direction,
}

impl InputHandler {
    pub fn new() -> (h: InputHandler)
        ensures
            h.direction_spec() == Direction::Right,
    {
        InputHandler { direction: Direction::Right }
    }

    /// The direction the handler currently reports.
    pub closed spec fn direction_spec(&self) -> Direction {
        self.direction
    }

    /// Notes one key event: a recognized key replaces the remembered
    /// direction, an unrecognized one leaves it unchanged.
    pub fn record_key(&mut self, decoded: Option<Direction>)
        ensures
            final(self).direction_spec() == match decoded {
                Some(d) => d,
                None => old(self).direction_spec(),
            },
    {
        if let Some(d) = decoded {
            self.direction = d;
        }
    }

    pub fn get_direction(&self) -> (r: Direction)
        ensures
            r == self.direction_spec(),
    {
        self.direction
    }
}

/// The keyboard mapping for letter keys: w, a, s and d steer up, left, down
/// and right; any other character is not a steering key.
pub fn direction_for_char(key: char) -> (r: Option<Direction>)
    ensures
        r == (match key {
            'w' => Some(Direction::Up),
            'a' => Some(Direction::Left),
            's' => Some(Direction::Down),
            'd' => Some(Direction::Right),
            _ => None::<Direction>,
        }),
{
    match key {
        'w' => Some(Direction::Up),
        'a' => Some(Direction::Left),
        's' => Some(Direction::Down),
        'd' => Some(Direction::Right),
        _ => None,
    }
}

} // verus!
