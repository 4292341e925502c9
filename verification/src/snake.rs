use vstd::prelude::*;
use crate::constants::{BOARD_HEIGHT, BOARD_WIDTH};
use crate::coordinate::{in_interior, Coordinate};
use crate::direction::{next_coord, Direction};

verus! {

/// The snake in the classic Snake game: an ordered body of cells (head first),
/// a current heading, and a flag that defers growth to the next move.
#[derive(Debug)]
pub struct Snake {
    pub body: Vec<Coordinate>,
    pub direction: Direction,
    pub has_eaten: bool,
}

/// Mathematical state of a snake: what the executable `Snake` is about.
pub struct SnakeModel {
    pub body: Seq<Coordinate>,
    pub direction: Direction,
    pub has_eaten: bool,
}

impl View for Snake {
    type V = SnakeModel;

    open spec fn view(&self) -> SnakeModel {
        SnakeModel {
            body: self.body@,
            direction: self.direction,
            has_eaten: self.has_eaten,
        }
    }
}

/// The snake a new game starts with: one segment at the middle of the board,
/// heading right, no growth pending.
pub open spec fn initial_snake() -> SnakeModel {
    SnakeModel {
        body: seq![Coordinate((BOARD_WIDTH / 2) as i32, (BOARD_HEIGHT / 2) as i32)],
        direction: Direction::Right,
        has_eaten: false,
    }
}

/// Steering: the requested heading is taken unless it is the exact reverse of
/// the current one, which is silently ignored.
pub open spec fn change_direction_spec(s: SnakeModel, requested: Direction) -> SnakeModel {
    if requested == s.direction.opposite_spec() {
        s
    } else {
        SnakeModel { direction: requested, ..s }
    }
}

/// One move: the cell ahead becomes the new head; the tail is dropped unless
/// growth was pending, in which case it is kept and the flag cleared.
pub open spec fn move_forward_spec(s: SnakeModel) -> SnakeModel {
    let grown = seq![next_coord(s.body[0], s.direction)] + s.body;
    SnakeModel {
        body: if s.has_eaten {
            grown
        } else {
            grown.drop_last()
        },
        has_eaten: false,
        ..s
    }
}

/// Eating: growth is deferred to the next move.
pub open spec fn grow_spec(s: SnakeModel) -> SnakeModel {
    SnakeModel { has_eaten: true, ..s }
}

/// The head coincides with some later body segment.
pub open spec fn self_collision(s: SnakeModel) -> bool {
    exists|i: int| 1 <= i < s.body.len() && #[trigger] s.body[i] == s.body[0]
}

/// The head lies in the one-cell wall band at the border of the board.
pub open spec fn wall_collision(s: SnakeModel) -> bool {
    !in_interior(s.body[0])
}

/// The head can take one step in any direction without leaving `i32`.
pub open spec fn head_in_range(s: SnakeModel) -> bool {
    &&& i32::MIN < s.body[0].0 < i32::MAX
    &&& i32::MIN < s.body[0].1 < i32::MAX
}

/// An operation of the snake engine, for stating laws over whole play
/// histories.
pub enum SnakeOp {
    ChangeDirection(Direction),
    MoveForward,
    Grow,
}

pub open spec fn apply_op(s: SnakeModel, op: SnakeOp) -> SnakeModel {
    match op {
        SnakeOp::ChangeDirection(d) => change_direction_spec(s, d),
        SnakeOp::MoveForward => move_forward_spec(s),
        SnakeOp::Grow => grow_spec(s),
    }
}

pub open spec fn apply_ops(s: SnakeModel, ops: Seq<SnakeOp>) -> SnakeModel
    decreases ops.len(),
{
    if ops.len() == 0 {
        s
    } else {
        apply_ops(apply_op(s, ops[0]), ops.drop_first())
    }
}

/// Along any sequence of engine operations — steering, moving, eating — the
/// body never shrinks and never empties.
pub proof fn lemma_body_length_monotone(s: SnakeModel, ops: Seq<SnakeOp>)
    requires
        s.body.len() >= 1,
    ensures
        apply_ops(s, ops).body.len() >= s.body.len(),
    decreases ops.len(),
{
    if ops.len() > 0 {
        lemma_body_length_monotone(apply_op(s, ops[0]), ops.drop_first());
    }
}

/// Each eaten-food event grows the body by exactly one cell, realized at the
/// move that follows it; a move with no growth pending keeps the length.
pub proof fn lemma_eat_grows_by_one(s: SnakeModel)
    requires
        s.body.len() >= 1,
    ensures
        move_forward_spec(grow_spec(s)).body.len() == s.body.len() + 1,
        !s.has_eaten ==> move_forward_spec(s).body.len() == s.body.len(),
{
}

/// Requesting the exact reverse of the current heading changes nothing at
/// all, whichever of the four directions the snake is heading in.
pub proof fn lemma_reversal_ignored(s: SnakeModel)
    ensures
        change_direction_spec(s, s.direction.opposite_spec()) == s,
{
}

/// After a move, the wall check holds exactly when the new head lies in the
/// one-cell wall band.
pub proof fn lemma_wall_after_move(s: SnakeModel)
    requires
        s.body.len() >= 1,
    ensures
        wall_collision(move_forward_spec(s)) <==> !in_interior(
            next_coord(s.body[0], s.direction),
        ),
{
}

/// After a move, the self-collision check holds exactly when the new head
/// duplicates a cell that stayed part of the body: any old cell when growth
/// was pending, any but the dropped tail otherwise.
pub proof fn lemma_self_collision_after_move(s: SnakeModel)
    requires
        s.body.len() >= 1,
    ensures
        self_collision(move_forward_spec(s)) <==> (if s.has_eaten {
            s.body
        } else {
            s.body.drop_last()
        }).contains(next_coord(s.body[0], s.direction)),
{
    let new_head = next_coord(s.body[0], s.direction);
    let moved = move_forward_spec(s);
    let kept = if s.has_eaten {
        s.body
    } else {
        s.body.drop_last()
    };
    assert(moved.body =~= seq![new_head] + kept);
    if self_collision(moved) {
        let i = choose|i: int| 1 <= i < moved.body.len() && #[trigger] moved.body[i]
            == moved.body[0];
        assert(kept[i - 1] == new_head);
        assert(kept.contains(new_head));
    }
    if kept.contains(new_head) {
        let j = choose|j: int| 0 <= j < kept.len() && #[trigger] kept[j] == new_head;
        assert(moved.body[j + 1] == moved.body[0]);
    }
}

/// A single-segment snake never collides with itself.
pub proof fn lemma_single_segment_no_self_collision(s: SnakeModel)
    requires
        s.body.len() == 1,
    ensures
        !self_collision(s),
{
}

impl Snake {
    pub fn new() -> (s: Snake)
        ensures
            s@ == initial_snake(),
    {
        let s = Snake {
            body: vec![Coordinate(BOARD_WIDTH / 2, BOARD_HEIGHT / 2)],
            direction: Direction::Right,
            has_eaten: false,
        };
        proof {
            assert(s@.body =~= initial_snake().body);
        }
        s
    }

    pub fn change_direction(&mut self, direction: Direction)
        ensures
            final(self)@ == change_direction_spec(old(self)@, direction),
    {
        let is_up_and_down_not_simultaneous =
            self.direction == Direction::Up && direction != Direction::Down;

        let is_right_and_left_not_simultaneous =
            self.direction == Direction::Right && direction != Direction::Left;

        let is_left_and_right_not_simultaneous =
            self.direction == Direction::Left && direction != Direction::Right;

        let is_down_and_up_not_simultaneous =
            self.direction == Direction::Down && direction != Direction::Up;

        if is_up_and_down_not_simultaneous
            || is_right_and_left_not_simultaneous
            || is_left_and_right_not_simultaneous
            || is_down_and_up_not_simultaneous
        {
            self.direction = direction;
        }
    }

    pub fn move_forward(&mut self)
        requires
            old(self)@.body.len() >= 1,
            head_in_range(old(self)@),
        ensures
            final(self)@ == move_forward_spec(old(self)@),
    {
        let coordinate = self.head_position();

        let new_head = match self.direction {
            Direction::Up => Coordinate(coordinate.0, coordinate.1 - 1),
            Direction::Down => Coordinate(coordinate.0, coordinate.1 + 1),
            Direction::Left => Coordinate(coordinate.0 - 1, coordinate.1),
            Direction::Right => Coordinate(coordinate.0 + 1, coordinate.1),
        };

        self.body.insert(0, new_head);

        if !self.has_eaten {
            self.body.pop();
        } else {
            self.has_eaten = false;
        }

        proof {
            assert(self@.body =~= move_forward_spec(old(self)@).body);
        }
    }

    pub fn head_position(&self) -> (r: Coordinate)
        requires
            self@.body.len() >= 1,
        ensures
            r == self@.body[0],
    {
        self.body[0]
    }

    pub fn grow(&mut self)
        ensures
            final(self)@ == grow_spec(old(self)@),
    {
        self.has_eaten = true;
    }

    pub fn collides_with_self(&self) -> (r: bool)
        requires
            self@.body.len() >= 1,
        ensures
            r == self_collision(self@),
    {
        let head = self.head_position();
        let mut i: usize = 1;
        while i < self.body.len()
            invariant
                1 <= i <= self@.body.len(),
                head == self@.body[0],
                forall|j: int| 1 <= j < i ==> #[trigger] self@.body[j] != self@.body[0],
            decreases self@.body.len() - i,
        {
            if self.body[i] == head {
                return true;
            }
            i += 1;
        }
        false
    }

    pub fn collides_with_wall(&self) -> (r: bool)
        requires
            self@.body.len() >= 1,
        ensures
            r == wall_collision(self@),
    {
        let coordinate = self.head_position();
        coordinate.0 <= 0
            || coordinate.0 >= BOARD_WIDTH - 1
            || coordinate.1 <= 0
            || coordinate.1 >= BOARD_HEIGHT - 1
    }

    pub fn body(&self) -> (r: &Vec<Coordinate>)
        ensures
            r@ == self@.body,
    {
        &self.body
    }
}

} // verus!
