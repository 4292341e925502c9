use snake::constants::{BOARD_HEIGHT, BOARD_WIDTH};
use snake::coordinate::Coordinate;
use snake::direction::Direction;
use snake::food::{place_food, Food};
use snake::game::{Game, GameDifficulty};
use snake::input::{direction_for_char, InputHandler};
use snake::snake::Snake;

fn snake_with(body: Vec<Coordinate>, direction: Direction) -> Snake {
    Snake {
        body,
        direction,
        has_eaten: false,
    }
}

#[test]
fn test_three_moves_from_start() {
    // Board 20x10: the snake starts at (10,5) heading right; three moves
    // later the head is at (13,5) and the body still has one segment.
    let mut snake = Snake::new();
    snake.move_forward();
    snake.move_forward();
    snake.move_forward();
    assert_eq!(snake.body.len(), 1);
    assert_eq!(snake.head_position(), Coordinate(13, 5));
}

#[test]
fn test_grow_keeps_previous_head_as_tail() {
    let mut snake = snake_with(vec![Coordinate(13, 5)], Direction::Right);
    snake.grow();
    snake.move_forward();
    assert_eq!(snake.body.len(), 2);
    assert_eq!(snake.head_position(), Coordinate(14, 5));
    assert_eq!(snake.body[1], Coordinate(13, 5));
}

#[test]
fn test_wall_collision_after_move_near_right_wall() {
    let mut snake = snake_with(vec![Coordinate(BOARD_WIDTH - 2, 5)], Direction::Right);
    assert!(!snake.collides_with_wall());
    snake.move_forward();
    assert_eq!(snake.head_position().0, BOARD_WIDTH - 1);
    assert!(snake.collides_with_wall());
}

#[test]
fn test_reversal_rejected_with_longer_body() {
    let mut snake = snake_with(
        vec![Coordinate(5, 5), Coordinate(4, 5), Coordinate(4, 4)],
        Direction::Up,
    );
    snake.change_direction(Direction::Down);
    assert_eq!(snake.direction, Direction::Up);
}

#[test]
fn test_reversal_rejected_for_each_heading() {
    let pairs = [
        (Direction::Up, Direction::Down),
        (Direction::Down, Direction::Up),
        (Direction::Left, Direction::Right),
        (Direction::Right, Direction::Left),
    ];
    for &(heading, reverse) in pairs.iter() {
        let mut snake = snake_with(vec![Coordinate(10, 5)], heading);
        snake.change_direction(reverse);
        assert_eq!(snake.direction, heading);
    }
}

#[test]
fn test_wall_collision_at_each_boundary() {
    let on_wall = [
        Coordinate(0, 5),
        Coordinate(BOARD_WIDTH - 1, 5),
        Coordinate(5, 0),
        Coordinate(5, BOARD_HEIGHT - 1),
    ];
    for &head in on_wall.iter() {
        let snake = snake_with(vec![head], Direction::Right);
        assert!(snake.collides_with_wall());
    }
    let interior = [Coordinate(1, 1), Coordinate(BOARD_WIDTH - 2, BOARD_HEIGHT - 2)];
    for &head in interior.iter() {
        let snake = snake_with(vec![head], Direction::Right);
        assert!(!snake.collides_with_wall());
    }
}

#[test]
fn test_self_collision_iff_head_repeats() {
    let colliding = snake_with(
        vec![Coordinate(5, 5), Coordinate(5, 6), Coordinate(5, 5)],
        Direction::Up,
    );
    assert!(colliding.collides_with_self());

    let clear = snake_with(
        vec![Coordinate(5, 5), Coordinate(5, 6), Coordinate(4, 6)],
        Direction::Up,
    );
    assert!(!clear.collides_with_self());

    let single = snake_with(vec![Coordinate(5, 5)], Direction::Up);
    assert!(!single.collides_with_self());
}

#[test]
fn test_food_placement_trials() {
    // Across repeated random trials the pellet is never in the wall band and
    // never on the snake.
    let snake = snake_with(
        vec![
            Coordinate(10, 5),
            Coordinate(9, 5),
            Coordinate(8, 5),
            Coordinate(8, 4),
            Coordinate(8, 3),
        ],
        Direction::Right,
    );
    for _ in 0..300 {
        let food = Food::new(&snake);
        let Coordinate(x, y) = food.position;
        assert!(x > 0 && x < BOARD_WIDTH - 1);
        assert!(y > 0 && y < BOARD_HEIGHT - 1);
        assert!(!snake.body.contains(&food.position));
    }
}

#[test]
fn test_food_placement_one_cell_left() {
    // Cover the whole interior except one cell: placement must find it.
    let hole = Coordinate(7, 3);
    let mut body = Vec::new();
    for x in 1..BOARD_WIDTH - 1 {
        for y in 1..BOARD_HEIGHT - 1 {
            if Coordinate(x, y) != hole {
                body.push(Coordinate(x, y));
            }
        }
    }
    let snake = snake_with(body, Direction::Right);
    assert_eq!(place_food(&snake), Some(hole));
}

#[test]
fn test_food_placement_saturated_board() {
    let mut body = Vec::new();
    for x in 1..BOARD_WIDTH - 1 {
        for y in 1..BOARD_HEIGHT - 1 {
            body.push(Coordinate(x, y));
        }
    }
    let snake = snake_with(body, Direction::Right);
    assert_eq!(place_food(&snake), None);
}

#[test]
fn test_autopilot_never_reverses() {
    // Whatever heading the snake has, the autopilot's pick is never its
    // exact reverse.
    let mut game = Game::new(GameDifficulty::MEDIUM, false, false, false);
    let steering = [
        Direction::Up,
        Direction::Left,
        Direction::Down,
        Direction::Right,
        Direction::Down,
    ];
    for &turn in steering.iter() {
        let heading_before = game.snake().direction;
        let pick = game.calculate_direction_to_food(
            game.snake().head_position(),
            game.food_position(),
        );
        assert_ne!(pick, heading_before.opposite());
        if game.step(Some(turn)).game_over {
            break;
        }
    }
}

#[test]
fn test_autopilot_moves_toward_food() {
    let game = Game::new(GameDifficulty::MEDIUM, true, false, false);
    let head = game.snake().head_position();
    let food = game.food_position();
    let pick = game.calculate_direction_to_food(head, food);
    let next = match pick {
        Direction::Up => Coordinate(head.0, head.1 - 1),
        Direction::Down => Coordinate(head.0, head.1 + 1),
        Direction::Left => Coordinate(head.0 - 1, head.1),
        Direction::Right => Coordinate(head.0 + 1, head.1),
    };
    let dist = |a: Coordinate, b: Coordinate| (a.0 - b.0).abs() + (a.1 - b.1).abs();
    // A single-segment snake in the interior always has a viable direction,
    // and stepping along the pick must not move away from the food.
    assert!(dist(next, food) <= dist(head, food) + 1);
    assert_ne!(pick, game.snake().direction.opposite());
}

#[test]
fn test_manual_game_runs_into_right_wall() {
    let mut game = Game::new(GameDifficulty::HARD, false, false, false);
    // Head starts at (10,5) heading right: the ninth move puts it at x = 19,
    // in the wall band, and the session ends; earlier moves may only end it
    // by eating nothing and colliding with nothing.
    let mut ticks = 0;
    loop {
        let outcome = game.step(None);
        ticks += 1;
        if outcome.game_over {
            break;
        }
        assert!(ticks < 9, "the wall must end the game by the ninth tick");
    }
    assert!(game.is_game_over());
    assert_eq!(game.snake().head_position().0, BOARD_WIDTH - 1);
}

#[test]
fn test_autopilot_session_scores_match_growth() {
    // Run a full autopilot session: every eaten pellet bumps the score by
    // one and the body grows on the following tick.
    let mut game = Game::new(GameDifficulty::EASY, true, true, true);
    let mut eaten = 0;
    for _ in 0..5000 {
        let len_before = game.snake().body().len();
        let pending = game.snake().has_eaten;
        let outcome = game.step(None);
        let len_after = game.snake().body().len();
        assert_eq!(len_after, len_before + usize::from(pending));
        if outcome.ate {
            eaten += 1;
        }
        assert_eq!(game.score(), eaten);
        assert!(len_after >= len_before);
        if outcome.game_over {
            break;
        }
        // While the session runs, the food is in the interior, off the body.
        let food = game.food_position();
        assert!(food.0 > 0 && food.0 < BOARD_WIDTH - 1);
        assert!(food.1 > 0 && food.1 < BOARD_HEIGHT - 1);
        assert!(!game.snake().body().contains(&food));
    }
}

#[test]
fn test_difficulty_tick_intervals() {
    assert_eq!(GameDifficulty::EASY.convert_to_number(), 150);
    assert_eq!(GameDifficulty::MEDIUM.convert_to_number(), 100);
    assert_eq!(GameDifficulty::HARD.convert_to_number(), 50);
}

#[test]
fn test_new_game_configuration() {
    let game = Game::new(GameDifficulty::EASY, true, false, true);
    assert_eq!(game.score(), 0);
    assert!(!game.is_game_over());
    assert!(game.autopilot_enabled());
    assert!(!game.sound_on());
    assert!(game.music_on());
    assert_eq!(game.snake().body.len(), 1);
    assert_eq!(game.snake().head_position(), Coordinate(10, 5));
}

#[test]
fn test_input_handler_remembers_last_direction() {
    let mut handler = InputHandler::new();
    assert_eq!(handler.get_direction(), Direction::Right);
    handler.record_key(Some(Direction::Up));
    assert_eq!(handler.get_direction(), Direction::Up);
    handler.record_key(None);
    assert_eq!(handler.get_direction(), Direction::Up);
    handler.record_key(Some(Direction::Left));
    assert_eq!(handler.get_direction(), Direction::Left);
}

#[test]
fn test_letter_key_mapping() {
    assert_eq!(direction_for_char('w'), Some(Direction::Up));
    assert_eq!(direction_for_char('a'), Some(Direction::Left));
    assert_eq!(direction_for_char('s'), Some(Direction::Down));
    assert_eq!(direction_for_char('d'), Some(Direction::Right));
    assert_eq!(direction_for_char('x'), None);
}

#[test]
fn test_opposite_directions() {
    assert_eq!(Direction::Up.opposite(), Direction::Down);
    assert_eq!(Direction::Down.opposite(), Direction::Up);
    assert_eq!(Direction::Left.opposite(), Direction::Right);
    assert_eq!(Direction::Right.opposite(), Direction::Left);
}
