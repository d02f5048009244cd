use snake_game::game::{contains_from, free_cells, random_free_cell};
use snake_game::{is_reverse, Direction, Game, GameError, Position, Snake};
use Direction::{Down, Left, Right, Up};

fn pos(x: usize, y: usize) -> Position {
    Position::new(x, y)
}

/// A 10x10 game with its food moved out of the way of the first row's path.
fn game_10() -> Game {
    let mut g = Game::new(10, 10);
    g.food = pos(1, 1);
    g
}

#[test]
fn new_game_is_deterministic_apart_from_food() {
    let g = Game::new(30, 30);
    assert_eq!(g.width, 30);
    assert_eq!(g.height, 30);
    assert_eq!(g.snake.body, vec![pos(15, 15), pos(14, 15), pos(13, 15), pos(12, 15)]);
    assert_eq!(g.snake.get_head(), pos(15, 15));
    assert_eq!(g.snake.direction, Direction::Right);
    assert_eq!(g.score, 0);
    assert!(!g.lost);
    assert!(g.food.x >= 1 && g.food.x <= 28);
    assert!(g.food.y >= 1 && g.food.y <= 28);
    assert!(!g.snake.body.contains(&g.food));
}

#[test]
fn new_game_on_smallest_board() {
    for _ in 0..50 {
        let g = Game::new(8, 3);
        assert_eq!(g.snake.body, vec![pos(4, 1), pos(3, 1), pos(2, 1), pos(1, 1)]);
        assert!(g.food == pos(5, 1) || g.food == pos(6, 1));
    }
}

#[test]
fn reverse_pairs() {
    assert!(is_reverse(Up, Down));
    assert!(is_reverse(Down, Up));
    assert!(is_reverse(Left, Right));
    assert!(is_reverse(Right, Left));
    for d in [Up, Down, Left, Right] {
        assert!(!is_reverse(d, d));
    }
    assert!(!is_reverse(Up, Left));
    assert!(!is_reverse(Up, Right));
    assert!(!is_reverse(Left, Up));
    assert!(!is_reverse(Right, Down));
}

#[test]
fn direction_defaults_to_right() {
    assert_eq!(Direction::default(), Direction::Right);
}

#[test]
fn position_add() {
    assert_eq!(pos(3, 4).add(pos(1, 0)), pos(4, 4));
    assert_eq!(pos(0, 7).add(pos(2, 5)), pos(2, 12));
}

#[test]
fn snake_new_lays_body_leftward() {
    let s = Snake::new(3, pos(5, 2));
    assert_eq!(s.body, vec![pos(5, 2), pos(4, 2), pos(3, 2)]);
    assert_eq!(s.direction, Direction::Right);
    assert_eq!(s.queued_direction, Direction::Right);
    assert!(!s.did_eat);
}

#[test]
fn snake_tick_moves_in_each_direction() {
    let cases = [
        (Direction::Up, pos(5, 4)),
        (Direction::Down, pos(5, 6)),
        (Direction::Right, pos(6, 5)),
    ];
    for (d, head) in cases {
        let mut s = Snake::new(3, pos(5, 5));
        s.queue_change_direction(d);
        s.tick(pos(0, 0));
        assert_eq!(s.direction, d);
        assert_eq!(s.get_head(), head);
        assert_eq!(s.body.len(), 3);
        assert_eq!(s.body[1], pos(5, 5));
        assert!(!s.did_eat);
    }
}

#[test]
fn snake_moves_left_after_turning() {
    let mut s = Snake::new(3, pos(5, 5));
    s.queue_change_direction(Direction::Up);
    s.tick(pos(0, 0));
    s.queue_change_direction(Direction::Left);
    s.tick(pos(0, 0));
    assert_eq!(s.body, vec![pos(4, 4), pos(5, 4), pos(5, 5)]);
}

#[test]
fn snake_grows_when_eating() {
    let mut s = Snake::new(3, pos(5, 5));
    s.tick(pos(6, 5));
    assert!(s.did_eat);
    assert_eq!(s.body, vec![pos(6, 5), pos(5, 5), pos(4, 5), pos(3, 5)]);
    s.tick(pos(0, 0));
    assert!(!s.did_eat);
    assert_eq!(s.body, vec![pos(7, 5), pos(6, 5), pos(5, 5), pos(4, 5)]);
}

#[test]
fn reverse_request_is_discarded() {
    let mut s = Snake::new(3, pos(5, 5));
    s.queue_change_direction(Direction::Up);
    s.tick(pos(0, 0));
    assert_eq!(s.direction, Direction::Up);
    s.queue_change_direction(Direction::Down);
    assert_eq!(s.queued_direction, Direction::Up);
    s.tick(pos(0, 0));
    assert_eq!(s.direction, Direction::Up);
    assert_eq!(s.get_head(), pos(5, 3));
}

#[test]
fn reverse_request_clears_earlier_request() {
    let mut s = Snake::new(3, pos(5, 5));
    s.queue_change_direction(Direction::Up);
    s.queue_change_direction(Direction::Left);
    assert_eq!(s.queued_direction, Direction::Right);
    s.tick(pos(0, 0));
    assert_eq!(s.direction, Direction::Right);
}

#[test]
fn perpendicular_requests_take_effect() {
    for d in [Direction::Left, Direction::Right] {
        let mut g = game_10();
        g.queue_change_direction(Direction::Up);
        g.tick().unwrap();
        assert_eq!(g.snake.direction, Direction::Up);
        g.queue_change_direction(d);
        assert_eq!(g.snake.direction, Direction::Up);
        g.tick().unwrap();
        assert_eq!(g.snake.direction, d);
    }
}

#[test]
fn eating_grows_and_scores() {
    let mut g = game_10();
    g.food = pos(6, 5);
    let before = g.snake.body.len();
    g.tick().unwrap();
    assert_eq!(g.snake.body.len(), before + 1);
    assert_eq!(g.score, 1);
    assert!(g.snake.did_eat);
    assert!(!g.snake.body.contains(&g.food));
    assert!(g.food.x >= 1 && g.food.x <= 8 && g.food.y >= 1 && g.food.y <= 8);
    assert!(!g.lost);
}

#[test]
fn moving_without_food_keeps_length() {
    let mut g = game_10();
    let food = g.food;
    g.tick().unwrap();
    assert_eq!(g.snake.body, vec![pos(6, 5), pos(5, 5), pos(4, 5), pos(3, 5)]);
    assert_eq!(g.score, 0);
    assert_eq!(g.food, food);
}

#[test]
fn food_stays_off_snake_over_many_ticks() {
    let mut g = Game::new(12, 12);
    let turns = [Direction::Up, Direction::Left, Direction::Down, Direction::Right];
    for i in 0..40 {
        g.queue_change_direction(turns[(i / 2) % 4]);
        if g.tick().is_err() || g.lost {
            break;
        }
        assert!(!g.snake.body.contains(&g.food));
    }
}

#[test]
fn self_collision_loses_at_that_tick() {
    let mut g = game_10();
    g.food = pos(6, 5);
    g.tick().unwrap();
    assert_eq!(g.snake.body.len(), 5);
    for d in [Direction::Down, Direction::Left] {
        g.queue_change_direction(d);
        g.tick().unwrap();
        assert!(!g.lost);
    }
    g.queue_change_direction(Direction::Up);
    g.tick().unwrap();
    assert_eq!(g.snake.get_head(), pos(5, 5));
    assert!(g.snake.body[1..].contains(&pos(5, 5)));
    assert!(g.lost);
}

#[test]
fn wall_loses_exactly_when_head_leaves_interior() {
    let mut g = game_10();
    for x in 6..=8 {
        g.tick().unwrap();
        assert_eq!(g.snake.get_head(), pos(x, 5));
        assert!(!g.lost);
    }
    g.tick().unwrap();
    assert_eq!(g.snake.get_head(), pos(9, 5));
    assert!(g.lost);
}

#[test]
fn wall_at_top_loses() {
    let mut g = game_10();
    g.queue_change_direction(Direction::Up);
    for y in (1..=4).rev() {
        g.tick().unwrap();
        assert_eq!(g.snake.get_head(), pos(5, y));
        assert!(!g.lost);
    }
    g.tick().unwrap();
    assert_eq!(g.snake.get_head(), pos(5, 0));
    assert!(g.lost);
}

#[test]
fn tick_after_loss_is_refused_and_changes_nothing() {
    let mut g = game_10();
    for _ in 0..4 {
        g.tick().unwrap();
    }
    assert!(g.lost);
    let body = g.snake.body.clone();
    let (food, score) = (g.food, g.score);
    assert_eq!(g.tick(), Err(GameError::TickAfterLoss));
    assert!(g.lost);
    assert_eq!(g.snake.body, body);
    assert_eq!(g.food, food);
    assert_eq!(g.score, score);
    g.queue_change_direction(Direction::Up);
    assert!(g.lost);
}

#[test]
fn place_new_food_avoids_snake() {
    let mut g = Game::new(8, 3);
    for _ in 0..50 {
        g.place_new_food();
        assert!(g.food == pos(5, 1) || g.food == pos(6, 1));
    }
}

#[test]
fn place_new_food_keeps_food_on_full_board() {
    let mut g = Game::new(8, 3);
    g.snake.body = (1..=6).rev().map(|x| pos(x, 1)).collect();
    g.food = pos(6, 1);
    g.place_new_food();
    assert_eq!(g.food, pos(6, 1));
}

#[test]
fn new_food_pos_is_inside_and_varies() {
    let mut xs = std::collections::HashSet::new();
    for _ in 0..200 {
        let p = Game::get_new_food_pos(30, 30);
        assert!(p.x >= 1 && p.x <= 28);
        assert!(p.y >= 1 && p.y <= 28);
        xs.insert(p.x);
    }
    assert!(xs.len() > 1);
}

#[test]
fn free_cells_lists_unoccupied_interior() {
    let body = vec![pos(1, 1), pos(2, 1)];
    let mut cells = free_cells(5, 4, &body);
    cells.sort_by_key(|p| (p.y, p.x));
    assert_eq!(cells, vec![pos(3, 1), pos(1, 2), pos(2, 2), pos(3, 2)]);
    assert!(free_cells(2, 10, &body).is_empty());
}

#[test]
fn random_free_cell_finds_the_only_one() {
    let body = vec![pos(1, 1), pos(2, 1), pos(1, 2)];
    for _ in 0..20 {
        assert_eq!(random_free_cell(4, 4, &body), Some(pos(2, 2)));
    }
    let full = vec![pos(1, 1), pos(2, 1), pos(1, 2), pos(2, 2)];
    assert_eq!(random_free_cell(4, 4, &full), None);
}

#[test]
fn contains_from_skips_prefix() {
    let body = vec![pos(1, 1), pos(2, 1), pos(1, 1)];
    assert!(contains_from(&body, 0, pos(2, 1)));
    assert!(contains_from(&body, 1, pos(1, 1)));
    assert!(!contains_from(&body, 2, pos(2, 1)));
    assert!(!contains_from(&body, 3, pos(1, 1)));
}
