use snake_game::game::{direction_for_key, Event, GameState};
use snake_game::grid::{create_map_grid, GRID_SIDE};
use snake_game::snake::{
    advance, check_self_collision, check_wall_collision, init_snake, step, Direction,
};

#[test]
fn map_grid_lists_every_tile_column_by_column() {
    let tiles = create_map_grid();
    assert_eq!(tiles.len(), 289);
    assert_eq!(tiles[0], (1, 1));
    assert_eq!(tiles[1], (1, 2));
    assert_eq!(tiles[16], (1, 17));
    assert_eq!(tiles[17], (2, 1));
    assert_eq!(tiles[288], (17, 17));
    for (i, t) in tiles.iter().enumerate() {
        assert_eq!(*t, ((i / 17) as i32 + 1, (i % 17) as i32 + 1));
    }
    assert_eq!(GRID_SIDE, 17);
}

#[test]
fn init_snake_has_four_segments_in_a_row() {
    let snake = init_snake();
    assert_eq!(snake.segments, vec![(7, 9), (8, 9), (9, 9), (10, 9)]);
}

#[test]
fn step_moves_one_tile_per_heading() {
    assert_eq!(step((5, 5), Direction::Up), (5, 6));
    assert_eq!(step((5, 5), Direction::Right), (6, 5));
    assert_eq!(step((5, 5), Direction::Down), (5, 4));
    assert_eq!(step((5, 5), Direction::Left), (4, 5));
}

#[test]
fn advance_right_from_start_shifts_chain() {
    let s = vec![(7, 9), (8, 9), (9, 9), (10, 9)];
    let r = advance(&s, Direction::Right);
    assert_eq!(r, vec![(8, 9), (9, 9), (10, 9), (11, 9)]);
    assert!(!check_wall_collision(&r));
    assert!(!check_self_collision(&r));
}

#[test]
fn advance_keeps_length_and_follows_the_leader() {
    let s = vec![(3, 3), (3, 4), (4, 4), (5, 4), (5, 5)];
    for d in [Direction::Up, Direction::Right, Direction::Down, Direction::Left] {
        let r = advance(&s, d);
        assert_eq!(r.len(), s.len());
        for i in 1..s.len() {
            assert_eq!(r[i - 1], s[i]);
        }
        assert_eq!(r[r.len() - 1], step((5, 5), d));
    }
}

#[test]
fn advance_single_segment_moves_head_only() {
    let r = advance(&vec![(1, 1)], Direction::Down);
    assert_eq!(r, vec![(1, 0)]);
    assert!(check_wall_collision(&r));
}

#[test]
fn advance_past_right_edge_hits_wall() {
    let s = vec![(16, 9), (17, 9)];
    let r = advance(&s, Direction::Right);
    assert_eq!(r[1], (18, 9));
    assert!(check_wall_collision(&r));
}

#[test]
fn wall_check_on_each_edge() {
    assert!(!check_wall_collision(&vec![(17, 17)]));
    assert!(!check_wall_collision(&vec![(1, 1)]));
    assert!(check_wall_collision(&vec![(18, 5)]));
    assert!(check_wall_collision(&vec![(5, 18)]));
    assert!(check_wall_collision(&vec![(0, 5)]));
    assert!(check_wall_collision(&vec![(5, 0)]));
    assert!(check_wall_collision(&advance(&vec![(9, 17)], Direction::Up)));
    assert!(check_wall_collision(&advance(&vec![(17, 9)], Direction::Right)));
    assert!(check_wall_collision(&advance(&vec![(9, 1)], Direction::Down)));
    assert!(check_wall_collision(&advance(&vec![(1, 9)], Direction::Left)));
    assert!(!check_wall_collision(&advance(&vec![(9, 16)], Direction::Up)));
}

#[test]
fn wall_check_reads_only_the_head() {
    assert!(!check_wall_collision(&vec![(0, 0), (1, 1)]));
    assert!(check_wall_collision(&vec![(1, 1), (0, 1)]));
}

#[test]
fn turning_down_into_body_collides() {
    let s = vec![(7, 9), (8, 9), (9, 9), (8, 10)];
    let r = advance(&s, Direction::Down);
    assert_eq!(r[3], (8, 9));
    assert!(check_self_collision(&r));
}

#[test]
fn distinct_segments_do_not_collide() {
    assert!(!check_self_collision(&vec![(1, 1), (1, 2), (2, 2), (2, 3)]));
    assert!(!check_self_collision(&vec![(4, 4)]));
}

#[test]
fn head_on_tail_collides() {
    assert!(check_self_collision(&vec![(2, 2), (2, 3), (3, 3), (3, 2), (2, 2)]));
}

#[test]
fn keys_select_headings() {
    assert_eq!(direction_for_key('w'), Some(Direction::Up));
    assert_eq!(direction_for_key('D'), Some(Direction::Right));
    assert_eq!(direction_for_key('s'), Some(Direction::Down));
    assert_eq!(direction_for_key('A'), Some(Direction::Left));
    assert_eq!(direction_for_key('x'), None);
}

#[test]
fn new_game_then_tick() {
    let mut g = GameState::new();
    assert_eq!(g.heading, Direction::Right);
    assert!(!g.is_game_over());
    g.tick();
    assert_eq!(g.snake.segments, vec![(8, 9), (9, 9), (10, 9), (11, 9)]);
    assert!(!g.is_game_over());
}

#[test]
fn reversal_ends_the_game() {
    let mut g = GameState::new();
    g.handle(Event::Turn(Direction::Left));
    assert_eq!(g.heading, Direction::Left);
    g.handle(Event::Tick);
    assert_eq!(g.snake.segments, vec![(8, 9), (9, 9), (10, 9), (9, 9)]);
    assert!(g.is_game_over());
}

#[test]
fn game_over_stays_after_more_events() {
    let mut g = GameState::new();
    for _ in 0..7 {
        g.tick();
    }
    assert_eq!(g.snake.segments[3], (17, 9));
    assert!(!g.is_game_over());
    g.tick();
    assert_eq!(g.snake.segments[3], (18, 9));
    assert!(g.is_game_over());
    let frozen = g.snake.segments.clone();
    g.change_direction(Direction::Left);
    g.tick();
    g.handle(Event::Turn(Direction::Up));
    g.handle(Event::Tick);
    assert!(g.is_game_over());
    assert_eq!(g.snake.segments, frozen);
}

#[test]
fn detect_steps_set_flag_only_on_collision() {
    let mut g = GameState::new();
    g.detect_map_collision();
    g.detect_body_collision();
    assert!(!g.is_game_over());
    g.snake.segments = vec![(7, 9), (8, 9), (9, 9), (8, 10)];
    g.heading = Direction::Down;
    g.move_snake_segments();
    g.detect_map_collision();
    assert!(!g.is_game_over());
    g.detect_body_collision();
    assert!(g.is_game_over());
}
