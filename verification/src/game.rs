use vstd::prelude::*;
use crate::constants::{BOARD_HEIGHT, BOARD_WIDTH};
use crate::coordinate::{contains_coord, in_interior, manhattan, Coordinate};
use crate::direction::{next_coord, Direction};
use crate::food::{place_food, Food};
use crate::snake::{
    change_direction_spec, initial_snake, move_forward_spec, self_collision, wall_collision,
    Snake, SnakeModel,
};

verus! {

/// Difficulty presets; each one fixes the tick interval for a whole session.
#[allow(non_camel_case_types)]
#[derive(Debug, Clone, Copy)]
pub enum GameDifficulty {
    EASY,
    MEDIUM,
    HARD,
}

impl GameDifficulty {
    /// The tick interval, in milliseconds, that this difficulty selects.
    pub open spec fn tick_millis(self) -> u8 {
        match self {
            GameDifficulty::EASY => 150,
            GameDifficulty::MEDIUM => 100,
            GameDifficulty::HARD => 50,
        }
    }

    pub fn convert_to_number(&self) -> (r: u8)
        ensures
            r == self.tick_millis(),
    {
        match self {
            GameDifficulty::EASY => 150,
            GameDifficulty::MEDIUM => 100,
            GameDifficulty::HARD => 50,
        }
    }
}

/// A direction the autopilot may take from `head`: not the reverse of the
/// current heading, and the cell one step that way is neither in the wall
/// band nor occupied by the body.
pub open spec fn viable(
    body: Seq<Coordinate>,
    current: Direction,
    head: Coordinate,
    d: Direction,
) -> bool {
    &&& d != current.opposite_spec()
    &&& in_interior(next_coord(head, d))
    &&& !body.contains(next_coord(head, d))
}

/// The order in which the autopilot enumerates candidates; earlier wins ties.
pub open spec fn enum_order(d: Direction) -> int {
    match d {
        Direction::Up => 0,
        Direction::Down => 1,
        Direction::Left => 2,
        Direction::Right => 3,
    }
}

/// What the greedy autopilot picks: the viable direction whose next cell is
/// nearest the food, ties going to the earliest in enumeration order — or the
/// current heading if no direction is viable at all.
pub open spec fn autopilot_picks(
    body: Seq<Coordinate>,
    current: Direction,
    head: Coordinate,
    food: Coordinate,
    r: Direction,
) -> bool {
    if exists|d: Direction| viable(body, current, head, d) {
        &&& viable(body, current, head, r)
        &&& forall|d: Direction| #[trigger] viable(body, current, head, d)
            ==> manhattan(next_coord(head, r), food) <= manhattan(next_coord(head, d), food)
        &&& forall|d: Direction| #[trigger] viable(body, current, head, d)
            && manhattan(next_coord(head, d), food) == manhattan(next_coord(head, r), food)
            ==> enum_order(r) <= enum_order(d)
    } else {
        r == current
    }
}

/// Whatever the autopilot picks is never the reverse of the current heading.
pub proof fn lemma_autopilot_never_reverses(
    body: Seq<Coordinate>,
    current: Direction,
    head: Coordinate,
    food: Coordinate,
    r: Direction,
)
    requires
        autopilot_picks(body, current, head, food, r),
    ensures
        r != current.opposite_spec(),
{
    crate::direction::lemma_opposite_is_other(current);
}

/// What one tick reports back to the surrounding loop.
pub struct TickOutcome {
    pub ate: bool,
    pub game_over: bool,
}

/// One game session: the snake, the food, the score, and the configuration
/// chosen at session start. Mutated only through the engine's operations.
pub struct Game {
    snake: Snake,
    food: Food,
    score: u32,
    game_difficulty: GameDifficulty,
    is_autopilot_on: bool,
    sound_enabled: bool,
    music_enabled: bool,
    game_over: bool,
}

impl Game {
    /// The snake's mathematical state.
    pub closed spec fn snake_model(self) -> SnakeModel {
        self.snake@
    }

    /// Where the food lies.
    pub closed spec fn food_pos(self) -> Coordinate {
        self.food.position
    }

    pub closed spec fn score_spec(self) -> u32 {
        self.score
    }

    pub closed spec fn over_spec(self) -> bool {
        self.game_over
    }

    pub closed spec fn difficulty_spec(self) -> GameDifficulty {
        self.game_difficulty
    }

    pub closed spec fn autopilot_spec(self) -> bool {
        self.is_autopilot_on
    }

    pub closed spec fn sound_spec(self) -> bool {
        self.sound_enabled
    }

    pub closed spec fn music_spec(self) -> bool {
        self.music_enabled
    }

    /// The session's configuration, which is fixed at creation.
    pub open spec fn same_config(self, other: Game) -> bool {
        &&& self.difficulty_spec() == other.difficulty_spec()
        &&& self.autopilot_spec() == other.autopilot_spec()
        &&& self.sound_spec() == other.sound_spec()
        &&& self.music_spec() == other.music_spec()
    }

    /// What holds of every session between ticks: the body is never empty,
    /// and while the game runs, the head is off the wall band and the food
    /// lies in the interior on a cell the snake does not occupy.
    pub open spec fn inv(self) -> bool {
        &&& self.snake_model().body.len() >= 1
        &&& !self.over_spec() ==> {
            &&& in_interior(self.snake_model().body[0])
            &&& in_interior(self.food_pos())
            &&& !self.snake_model().body.contains(self.food_pos())
        }
    }

    pub fn new(
        game_difficulty: GameDifficulty,
        is_autopilot_on: bool,
        sound_enabled: bool,
        music_enabled: bool,
    ) -> (g: Game)
        ensures
            g.inv(),
            !g.over_spec(),
            g.snake_model() == initial_snake(),
            g.score_spec() == 0,
            g.difficulty_spec() == game_difficulty,
            g.autopilot_spec() == is_autopilot_on,
            g.sound_spec() == sound_enabled,
            g.music_spec() == music_enabled,
    {
        let snake = Snake::new();
        proof {
            assert(in_interior(Coordinate(1, 1)) && !snake@.body.contains(Coordinate(1, 1)));
        }
        let food = Food::new(&snake);
        Game {
            snake,
            food,
            score: 0,
            game_difficulty,
            is_autopilot_on,
            sound_enabled,
            music_enabled,
            game_over: false,
        }
    }

    pub fn score(&self) -> (r: u32)
        ensures
            r == self.score_spec(),
    {
        self.score
    }

    pub fn is_game_over(&self) -> (r: bool)
        ensures
            r == self.over_spec(),
    {
        self.game_over
    }

    pub fn snake(&self) -> (r: &Snake)
        ensures
            r@ == self.snake_model(),
    {
        &self.snake
    }

    pub fn food_position(&self) -> (r: Coordinate)
        ensures
            r == self.food_pos(),
    {
        self.food.position
    }

    pub fn difficulty(&self) -> (r: GameDifficulty)
        ensures
            r == self.difficulty_spec(),
    {
        self.game_difficulty
    }

    pub fn autopilot_enabled(&self) -> (r: bool)
        ensures
            r == self.autopilot_spec(),
    {
        self.is_autopilot_on
    }

    pub fn sound_on(&self) -> (r: bool)
        ensures
            r == self.sound_spec(),
    {
        self.sound_enabled
    }

    pub fn music_on(&self) -> (r: bool)
        ensures
            r == self.music_spec(),
    {
        self.music_enabled
    }

    /// The Manhattan distance from `a` to `b`, for cells on or near the board.
    fn manhattan_dist(a: Coordinate, b: Coordinate) -> (r: i32)
        requires
            -1 <= a.0 <= BOARD_WIDTH,
            -1 <= a.1 <= BOARD_HEIGHT,
            -1 <= b.0 <= BOARD_WIDTH,
            -1 <= b.1 <= BOARD_HEIGHT,
        ensures
            r == manhattan(a, b),
            0 <= r <= BOARD_WIDTH + BOARD_HEIGHT + 2,
    {
        let dx = if a.0 >= b.0 { a.0 - b.0 } else { b.0 - a.0 };
        let dy = if a.1 >= b.1 { a.1 - b.1 } else { b.1 - a.1 };
        dx + dy
    }

    /// The distance the autopilot scores direction `dir` with: the Manhattan
    /// distance from the cell one step that way to the food, or nothing if
    /// the direction is not viable.
    fn candidate_distance(&self, head: Coordinate, food: Coordinate, dir: Direction) -> (r:
        Option<i32>)
        requires
            in_interior(head),
            in_interior(food),
        ensures
            r is Some <==> viable(self.snake_model().body, self.snake_model().direction, head, dir),
            r is Some ==> r->Some_0 == manhattan(next_coord(head, dir), food),
    {
        let opp = self.snake.direction.opposite();
        if dir == opp {
            return None;
        }
        let next_position = match dir {
            Direction::Up => Coordinate(head.0, head.1 - 1),
            Direction::Down => Coordinate(head.0, head.1 + 1),
            Direction::Left => Coordinate(head.0 - 1, head.1),
            Direction::Right => Coordinate(head.0 + 1, head.1),
        };
        let interior = next_position.0 > 0 && next_position.0 < BOARD_WIDTH - 1
            && next_position.1 > 0 && next_position.1 < BOARD_HEIGHT - 1;
        if interior && !contains_coord(&self.snake.body, next_position) {
            Some(Self::manhattan_dist(next_position, food))
        } else {
            None
        }
    }

    /// The greedy choice of a next heading: among the four directions, those
    /// that are not the reverse of the current heading and whose next cell is
    /// safe are scored by distance to the food; the nearest wins, ties going
    /// to the enumeration order up, down, left, right. With no viable
    /// direction the current heading is kept.
    pub fn calculate_direction_to_food(&self, head: Coordinate, food: Coordinate) -> (r: Direction)
        requires
            in_interior(head),
            in_interior(food),
        ensures
            autopilot_picks(
                self.snake_model().body,
                self.snake_model().direction,
                head,
                food,
                r,
            ),
            r != self.snake_model().direction.opposite_spec(),
    {
        let d_up = self.candidate_distance(head, food, Direction::Up);
        let d_down = self.candidate_distance(head, food, Direction::Down);
        let d_left = self.candidate_distance(head, food, Direction::Left);
        let d_right = self.candidate_distance(head, food, Direction::Right);

        let mut best_direction = self.snake.direction;
        let mut min_distance = i32::MAX;

        if let Some(d) = d_up {
            if d < min_distance {
                min_distance = d;
                best_direction = Direction::Up;
            }
        }
        if let Some(d) = d_down {
            if d < min_distance {
                min_distance = d;
                best_direction = Direction::Down;
            }
        }
        if let Some(d) = d_left {
            if d < min_distance {
                min_distance = d;
                best_direction = Direction::Left;
            }
        }
        if let Some(d) = d_right {
            if d < min_distance {
                min_distance = d;
                best_direction = Direction::Right;
            }
        }

        proof {
            let body = self.snake_model().body;
            let current = self.snake_model().direction;
            crate::direction::lemma_opposite_is_other(current);
            if viable(body, current, head, Direction::Up)
                || viable(body, current, head, Direction::Down)
                || viable(body, current, head, Direction::Left)
                || viable(body, current, head, Direction::Right) {
                assert forall|d: Direction| #[trigger] viable(body, current, head, d)
                    implies manhattan(next_coord(head, best_direction), food)
                        <= manhattan(next_coord(head, d), food) by {
                    match d {
                        Direction::Up => {},
                        Direction::Down => {},
                        Direction::Left => {},
                        Direction::Right => {},
                    }
                }
                assert forall|d: Direction| #[trigger] viable(body, current, head, d)
                    && manhattan(next_coord(head, d), food)
                        == manhattan(next_coord(head, best_direction), food)
                    implies enum_order(best_direction) <= enum_order(d) by {
                    match d {
                        Direction::Up => {},
                        Direction::Down => {},
                        Direction::Left => {},
                        Direction::Right => {},
                    }
                }
            } else {
                assert forall|d: Direction| !viable(body, current, head, d) by {
                    match d {
                        Direction::Up => {},
                        Direction::Down => {},
                        Direction::Left => {},
                        Direction::Right => {},
                    }
                }
            }
        }

        best_direction
    }

    /// Recomputes the heading toward the food and steers the snake with it.
    pub fn autopilot(&mut self)
        requires
            old(self).inv(),
            !old(self).over_spec(),
        ensures
            final(self).inv(),
            final(self).same_config(*old(self)),
            final(self).snake_model().body == old(self).snake_model().body,
            final(self).snake_model().has_eaten == old(self).snake_model().has_eaten,
            final(self).food_pos() == old(self).food_pos(),
            final(self).score_spec() == old(self).score_spec(),
            final(self).over_spec() == old(self).over_spec(),
            autopilot_picks(
                old(self).snake_model().body,
                old(self).snake_model().direction,
                old(self).snake_model().body[0],
                old(self).food_pos(),
                final(self).snake_model().direction,
            ),
    {
        let snake_head = self.snake.head_position();
        let food_position = self.food.position;

        let direction_to_food = self.calculate_direction_to_food(snake_head, food_position);

        self.snake.change_direction(direction_to_food);
    }

    /// One tick of the session: resolve the heading (autopilot, or the polled
    /// input if one arrived), move, handle eating and food respawn, then the
    /// collision checks. The outcome tells the surrounding loop what sounds
    /// to fire and whether the session ended.
    pub fn step(&mut self, input: Option<Direction>) -> (r: TickOutcome)
        requires
            old(self).inv(),
            !old(self).over_spec(),
            old(self).score_spec() < u32::MAX,
        ensures
            final(self).inv(),
            final(self).same_config(*old(self)),
            r.game_over == final(self).over_spec(),
            if old(self).autopilot_spec() {
                autopilot_picks(
                    old(self).snake_model().body,
                    old(self).snake_model().direction,
                    old(self).snake_model().body[0],
                    old(self).food_pos(),
                    final(self).snake_model().direction,
                )
            } else {
                final(self).snake_model().direction == match input {
                    Some(d) => change_direction_spec(old(self).snake_model(), d).direction,
                    None => old(self).snake_model().direction,
                }
            },
            ({
                let moved = move_forward_spec(
                    SnakeModel {
                        direction: final(self).snake_model().direction,
                        ..old(self).snake_model()
                    },
                );
                &&& final(self).snake_model().body == moved.body
                &&& r.ate == (moved.body[0] == old(self).food_pos())
                &&& r.ate ==> !wall_collision(moved) && !self_collision(moved)
                &&& r.ate ==> final(self).score_spec() == old(self).score_spec() + 1
                    && final(self).snake_model().has_eaten
                &&& !r.ate ==> final(self).score_spec() == old(self).score_spec()
                    && !final(self).snake_model().has_eaten
                    && final(self).food_pos() == old(self).food_pos()
                &&& !r.ate ==> r.game_over == (self_collision(moved) || wall_collision(moved))
                &&& r.ate ==> r.game_over == !(exists|c: Coordinate|
                    #[trigger] in_interior(c) && !moved.body.contains(c))
            }),
    {
        let ghost m0 = self.snake_model();
        let ghost old_food = self.food_pos();

        if self.is_autopilot_on {
            self.autopilot();
        } else if let Some(direction) = input {
            self.snake.change_direction(direction);
        }

        self.snake.move_forward();
        let ghost moved = self.snake@;

        let ate = self.snake.head_position() == self.food.position;

        proof {
            if ate && self_collision(moved) {
                let i = choose|i: int| 1 <= i < moved.body.len() && #[trigger] moved.body[i]
                    == moved.body[0];
                assert(moved.body[i] == m0.body[i - 1]);
                assert(m0.body.contains(old_food));
            }
        }

        if ate {
            self.snake.grow();
            match place_food(&self.snake) {
                Some(position) => {
                    self.food = Food { position };
                },
                None => {
                    self.game_over = true;
                },
            }
            self.score = self.score + 1;
        }

        if self.snake.collides_with_self() || self.snake.collides_with_wall() {
            self.game_over = true;
        }

        proof {
            if !ate && !self.game_over && moved.body.contains(old_food) {
                let i = choose|i: int| 0 <= i < moved.body.len() && #[trigger] moved.body[i]
                    == old_food;
                if i > 0 {
                    assert(moved.body[i] == m0.body[i - 1]);
                    assert(m0.body.contains(old_food));
                }
            }
        }

        TickOutcome { ate, game_over: self.game_over }
    }
}

} // verus!
