use std::collections::VecDeque;

use snake_game::game::{food_coord, Food, Game, SCORE_INCREMENT};
use snake_game::snake::{Block, Direction, Snake, SNAKE_AND_FOOD_SIZE};

fn block(x: i32, y: i32) -> Block {
    Block { x, y, size: SNAKE_AND_FOOD_SIZE }
}

fn coords(s: &Snake) -> Vec<(i32, i32)> {
    s.body.iter().map(|b| (b.x, b.y)).collect()
}

fn snake_of(direction: Direction, cells: &[(i32, i32)]) -> Snake {
    let mut body = VecDeque::new();
    for &(x, y) in cells {
        body.push_back(block(x, y));
    }
    Snake { direction, body, tail: None }
}

#[test]
fn opposite_pairs() {
    assert_eq!(Direction::Up.opposite(), Direction::Down);
    assert_eq!(Direction::Down.opposite(), Direction::Up);
    assert_eq!(Direction::Left.opposite(), Direction::Right);
    assert_eq!(Direction::Right.opposite(), Direction::Left);
    for d in [Direction::Up, Direction::Down, Direction::Left, Direction::Right] {
        assert_eq!(d.opposite().opposite(), d);
    }
}

#[test]
fn new_snake_layout() {
    let s = Snake::new(24, 20);
    assert_eq!(coords(&s), vec![(32, 20), (28, 20)]);
    assert_eq!(s.head_direction(), Direction::Right);
    assert!(s.tail.is_none());
    assert_eq!(s.head_position(), (32, 20));
}

#[test]
fn change_direction_rejects_reverse() {
    let mut s = Snake::new(24, 20);
    s.change_direction(Some(Direction::Left));
    assert_eq!(s.direction, Direction::Right);
    s.change_direction(None);
    assert_eq!(s.direction, Direction::Right);
    s.change_direction(Some(Direction::Up));
    assert_eq!(s.direction, Direction::Up);
    s.change_direction(Some(Direction::Down));
    assert_eq!(s.direction, Direction::Up);
    assert_eq!(coords(&s), vec![(32, 20), (28, 20)]);
}

#[test]
fn next_head_each_direction() {
    let mut s = Snake::new(24, 20);
    assert_eq!(s.next_head(), (36, 20));
    s.direction = Direction::Up;
    assert_eq!(s.next_head(), (32, 16));
    s.direction = Direction::Down;
    assert_eq!(s.next_head(), (32, 24));
    s.direction = Direction::Left;
    assert_eq!(s.next_head(), (28, 20));
}

#[test]
fn move_then_restore_grows_by_one() {
    let mut s = Snake::new(24, 20);
    s.move_forward();
    assert_eq!(coords(&s), vec![(36, 20), (32, 20)]);
    s.restore_tail();
    assert_eq!(coords(&s), vec![(36, 20), (32, 20), (28, 20)]);
}

#[test]
fn overlap_tail_skips_last_block() {
    let s = snake_of(Direction::Right, &[(20, 8), (16, 8), (12, 8)]);
    assert!(s.overlap_tail(20, 8));
    assert!(s.overlap_tail(16, 8));
    assert!(!s.overlap_tail(12, 8));
    assert!(!s.overlap_tail(40, 40));
}

#[test]
fn scenario_move_right_on_board() {
    let mut g = Game::new(128, 64);
    g.snake = Snake::new(4, 20);
    assert_eq!(coords(&g.snake), vec![(12, 20), (8, 20)]);
    assert_eq!(g.snake.next_head(), (16, 20));
    assert!(g.check_if_snake_alive());
    g.snake.move_forward();
    assert_eq!(coords(&g.snake), vec![(16, 20), (12, 20)]);
    assert_eq!(g.snake.tail, Some(block(8, 20)));
}

#[test]
fn scenario_top_edge_ends_life() {
    let mut g = Game::new(128, 64);
    g.snake = snake_of(Direction::Up, &[(20, 1), (20, 5)]);
    assert!(!g.check_if_snake_alive());
    g.update(fastrand::Rng::with_seed(7));
    assert!(g.game_over);
    assert_eq!(coords(&g.snake), vec![(20, 1), (20, 5)]);
}

#[test]
fn scenario_eating_food() {
    let mut g = Game::new(128, 64);
    assert!(g.food_exists);
    assert_eq!((g.food.x, g.food.y), (32, 16));
    g.snake = snake_of(Direction::Right, &[(28, 16), (24, 16)]);
    g.update(fastrand::Rng::with_seed(7));
    assert!(!g.food_exists);
    assert_eq!(g.score, SCORE_INCREMENT);
    assert_eq!(g.score, 4);
    assert_eq!(coords(&g.snake), vec![(32, 16), (28, 16), (24, 16)]);
    assert!(!g.game_over);
}

#[test]
fn scenario_restart_after_game_over() {
    let mut g = Game::new(128, 64);
    g.snake = snake_of(Direction::Up, &[(20, 1), (20, 5)]);
    g.score = 12;
    g.food_exists = false;
    g.update(fastrand::Rng::with_seed(3));
    assert!(g.game_over);
    g.restart();
    assert_eq!(g.score, 0);
    assert!(!g.game_over);
    assert!(g.food_exists);
    assert_eq!(g.food, Food::default());
    assert_eq!(coords(&g.snake), vec![(32, 20), (28, 20)]);
    assert_eq!(g.snake.direction, Direction::Right);
}

#[test]
fn update_is_frozen_after_game_over() {
    let mut g = Game::new(128, 64);
    g.game_over = true;
    g.score = 8;
    g.food_exists = false;
    for seed in 0..5u64 {
        g.update(fastrand::Rng::with_seed(seed));
    }
    assert!(g.game_over);
    assert_eq!(g.score, 8);
    assert!(!g.food_exists);
    assert_eq!(coords(&g.snake), vec![(32, 20), (28, 20)]);
}

#[test]
fn body_length_per_tick() {
    let mut g = Game::new(128, 64);
    let mut len = g.snake.body.len();
    for seed in 0..40u64 {
        if g.game_over {
            break;
        }
        g.update(fastrand::Rng::with_seed(seed));
        let now = g.snake.body.len();
        assert!(now == len || now == len + 1);
        len = now;
    }
}

#[test]
fn food_coord_values() {
    assert_eq!(food_coord(1, 128), 4);
    assert_eq!(food_coord(4, 128), 4);
    assert_eq!(food_coord(5, 128), 4);
    assert_eq!(food_coord(11, 128), 8);
    assert_eq!(food_coord(117, 128), 116);
    assert_eq!(food_coord(127, 128), 120);
    assert_eq!(food_coord(57, 64), 56);
    assert_eq!(food_coord(63, 64), 56);
}

#[test]
fn food_coord_stays_on_grid() {
    assert_eq!(food_coord(121, 130), 120);
    assert_eq!(food_coord(129, 130), 120);
    assert_eq!(food_coord(13, 13), 4);
    for raw in 1..131usize {
        let v = food_coord(raw, 131);
        assert_eq!(v % 4, 0);
        assert!(v >= 4 && v <= 120);
    }
}

#[test]
fn try_place_food_rejects_body() {
    let mut g = Game::new(128, 64);
    g.food_exists = false;
    assert!(!g.try_place_food(33, 22));
    assert!(!g.food_exists);
    assert!(g.try_place_food(31, 19));
    assert!(g.food_exists);
    assert_eq!((g.food.x, g.food.y), (28, 16));
    assert!(g.try_place_food(29, 21));
    assert_eq!((g.food.x, g.food.y), (28, 20));
    assert!(g.try_place_food(41, 41));
    assert_eq!((g.food.x, g.food.y), (40, 40));
    assert!(g.try_place_food(5, 5));
    assert_eq!((g.food.x, g.food.y), (4, 4));
}

#[test]
fn add_food_avoids_body() {
    let mut spots = Vec::new();
    for seed in 0..30u64 {
        let mut g = Game::new(128, 64);
        g.food_exists = false;
        g.add_food(fastrand::Rng::with_seed(seed));
        assert!(g.food_exists);
        assert!(!g.snake.overlap_tail(g.food.x, g.food.y));
        assert!(g.food.x >= 4 && g.food.x <= 120);
        assert!(g.food.y >= 4 && g.food.y <= 56);
        spots.push((g.food.x, g.food.y));
    }
    spots.sort();
    spots.dedup();
    assert!(spots.len() > 1);
}

#[test]
fn add_food_on_smallest_board() {
    let mut g = Game::new(12, 12);
    g.food_exists = false;
    g.add_food(fastrand::Rng::with_seed(9));
    assert!(g.food_exists);
    assert_eq!((g.food.x, g.food.y), (4, 4));
}

#[test]
fn add_food_with_no_free_cell() {
    let mut g = Game::new(12, 12);
    g.snake = snake_of(Direction::Right, &[(4, 4), (4, 8)]);
    g.food_exists = false;
    g.add_food(fastrand::Rng::with_seed(9));
    assert!(!g.food_exists);
    assert_eq!(g.food, Food::default());
}

#[test]
fn first_free_cell_scan_order() {
    let mut g = Game::new(20, 20);
    g.snake = snake_of(Direction::Right, &[(4, 4), (4, 8), (8, 8)]);
    assert_eq!(g.first_free_cell(), Some((4, 12)));
    g.snake = snake_of(Direction::Right, &[(4, 4), (4, 8), (4, 12), (8, 12)]);
    assert_eq!(g.first_free_cell(), Some((8, 4)));
}

#[test]
fn self_collision_ends_life() {
    let mut g = Game::new(128, 64);
    g.snake = snake_of(Direction::Down, &[(20, 20), (24, 20), (24, 24), (20, 24), (16, 24)]);
    assert!(!g.check_if_snake_alive());
    g.update(fastrand::Rng::with_seed(1));
    assert!(g.game_over);
}

#[test]
fn moving_into_tail_cell_is_allowed() {
    let mut g = Game::new(128, 64);
    g.snake = snake_of(Direction::Down, &[(20, 20), (24, 20), (24, 24), (20, 24)]);
    assert!(g.check_if_snake_alive());
}

#[test]
fn input_priority_and_reverse() {
    let mut g = Game::new(128, 64);
    g.handle_input(true, true, false, false);
    assert_eq!(g.snake.direction, Direction::Up);
    g.handle_input(false, true, true, false);
    assert_eq!(g.snake.direction, Direction::Up);
    g.handle_input(false, false, true, true);
    assert_eq!(g.snake.direction, Direction::Left);
    g.handle_input(false, false, false, false);
    assert_eq!(g.snake.direction, Direction::Left);
    g.handle_input(false, false, false, true);
    assert_eq!(g.snake.direction, Direction::Left);
}

#[test]
fn input_after_game_over() {
    let mut g = Game::new(128, 64);
    g.game_over = true;
    g.score = 20;
    g.handle_input(false, true, true, false);
    assert!(g.game_over);
    assert_eq!(g.score, 20);
    g.handle_input(false, false, false, true);
    assert!(!g.game_over);
    assert_eq!(g.score, 0);
}

#[test]
fn score_saturates() {
    let mut g = Game::new(128, 64);
    g.score = u32::MAX - 1;
    g.snake = snake_of(Direction::Right, &[(28, 16), (24, 16)]);
    g.update_snake();
    assert_eq!(g.score, u32::MAX);
}

#[test]
fn board_size_limits() {
    assert!(snake_game::game::board_fits(128, 64));
    assert!(snake_game::game::board_fits(12, 12));
    assert!(!snake_game::game::board_fits(11, 64));
    assert!(!snake_game::game::board_fits(128, 8));
    assert!(!snake_game::game::board_fits(u32::MAX, 64));
}
