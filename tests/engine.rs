use snake_game::board::{Board, Cell};
use snake_game::events::{Effect, GameOverEvent, GrowthEvent, ScoreChangedEvent, SpawnFruitEvent};
use snake_game::food::{
    blocked_cells, contains_cell, first_free_cell, first_free_draw, generate_position, is_free,
};
use snake_game::game::{Game, Score};
use snake_game::input::Key;
use snake_game::snake::{
    check_growth, detect_collision, growth, handle_swipe, init_snake, move_snake, GrowthError, Heading,
    SnakeHead, SnakeSegments,
};
use snake_game::states::{GameState, MenuState};

fn chain(cells: &[(i32, i32)]) -> SnakeSegments {
    SnakeSegments(cells.iter().map(|&(x, y)| Cell::new(x, y)).collect())
}

fn cells(s: &SnakeSegments) -> Vec<(i32, i32)> {
    s.0.iter().map(|c| (c.x, c.y)).collect()
}

fn playing(cells: &[(i32, i32)], dir: Heading, fruit: Option<(i32, i32)>) -> Game {
    let mut g = Game::new();
    g.segments = chain(cells);
    g.head = SnakeHead { direction: dir };
    g.fruit = fruit.map(|(x, y)| Cell::new(x, y));
    g.game_state = GameState::Play;
    g.menu_state = MenuState::Play;
    g.play_menu_visible = true;
    g
}

fn manhattan(a: Cell, b: Cell) -> i64 {
    (a.x as i64 - b.x as i64).abs() + (a.y as i64 - b.y as i64).abs()
}

#[test]
fn move_right_shifts_chain() {
    let board = Board::standard();
    assert_eq!((board.cols, board.rows), (9, 15));
    let mut s = init_snake();
    assert_eq!(cells(&s), vec![(1, 0), (0, 0), (-1, 0)]);
    let head = SnakeHead { direction: Heading::Right };
    assert_eq!(move_snake(&head, &mut s, &board), None);
    assert_eq!(cells(&s), vec![(2, 0), (1, 0), (0, 0)]);
}

#[test]
fn move_keeps_length_and_adjacency() {
    let board = Board::standard();
    let mut s = chain(&[(0, 0), (0, -1), (1, -1), (1, -2)]);
    for dir in [Heading::Left, Heading::Up, Heading::Up, Heading::Right] {
        let head = SnakeHead { direction: dir };
        assert_eq!(move_snake(&head, &mut s, &board), None);
        assert_eq!(s.0.len(), 4);
        for w in s.0.windows(2) {
            assert_eq!(manhattan(w[0], w[1]), 1);
        }
    }
    assert_eq!(cells(&s), vec![(0, 2), (-1, 2), (-1, 1), (-1, 0)]);
}

#[test]
fn stopped_head_does_not_move() {
    let board = Board::standard();
    let mut s = init_snake();
    let head = SnakeHead { direction: Heading::Stopped };
    assert_eq!(move_snake(&head, &mut s, &board), None);
    assert_eq!(cells(&s), vec![(1, 0), (0, 0), (-1, 0)]);
}

#[test]
fn reversal_request_is_rejected() {
    let s = init_snake();
    let mut head = SnakeHead { direction: Heading::Right };
    handle_swipe(Heading::Left, &mut head, &s);
    assert_eq!(head.direction, Heading::Right);
    handle_swipe(Heading::Up, &mut head, &s);
    assert_eq!(head.direction, Heading::Up);
    handle_swipe(Heading::Right, &mut head, &s);
    assert_eq!(head.direction, Heading::Right);
}

#[test]
fn reversal_key_is_rejected() {
    let mut g = playing(&[(1, 0), (0, 0), (-1, 0)], Heading::Right, None);
    g.keyboard(&vec![Key::Left]);
    assert_eq!(g.head.direction, Heading::Right);
    g.keyboard(&vec![Key::J]);
    assert_eq!(g.head.direction, Heading::Down);
}

#[test]
fn eating_scores_and_grows() {
    let mut g = playing(&[(0, 0), (-1, 0), (-2, 0)], Heading::Stopped, Some((0, 0)));
    let effects = g.tick().unwrap();
    assert_eq!(
        effects,
        vec![
            Effect::ScoreChanged(ScoreChangedEvent),
            Effect::DespawnFruit,
            Effect::SpawnFruit(SpawnFruitEvent),
            Effect::Growth(GrowthEvent),
        ]
    );
    assert_eq!(g.score, Score(1));
    assert_eq!(cells(&g.segments), vec![(0, 0), (-1, 0), (-2, 0), (-3, 0)]);
    let f = g.fruit.unwrap();
    assert_ne!((f.x, f.y), (0, 0));
    assert!(g.board.contains(f));
    assert!(!contains_cell(&g.segments.0, f));
}

#[test]
fn head_into_third_segment_ends_game() {
    let board = Board::standard();
    let mut s = chain(&[(0, 0), (-1, 0), (1, 0)]);
    let head = SnakeHead { direction: Heading::Right };
    assert_eq!(move_snake(&head, &mut s, &board), Some(GameOverEvent));
    assert_eq!(cells(&s), vec![(0, 0), (-1, 0), (1, 0)]);
}

#[test]
fn self_collision_ends_game() {
    let mut g = playing(&[(0, 0), (0, 1), (1, 1), (1, 0)], Heading::Right, None);
    let effects = g.tick().unwrap();
    assert_eq!(effects, vec![Effect::GameOver(GameOverEvent)]);
    assert_eq!(cells(&g.segments), vec![(0, 0), (0, 1), (1, 1), (1, 0)]);
    assert_eq!(g.game_state, GameState::Over);
    assert_eq!(g.menu_state, MenuState::Main);
    assert_eq!(g.head.direction, Heading::Stopped);
}

#[test]
fn wall_collision_ends_game() {
    let board = Board::standard();
    let mut s = chain(&[(4, 0), (3, 0), (2, 0)]);
    let head = SnakeHead { direction: Heading::Right };
    assert!(detect_collision(&head, &s, &board).is_some());
    assert_eq!(move_snake(&head, &mut s, &board), Some(GameOverEvent));
    assert_eq!(cells(&s), vec![(4, 0), (3, 0), (2, 0)]);
    let mut t = chain(&[(0, -7), (0, -6), (0, -5)]);
    let down = SnakeHead { direction: Heading::Down };
    assert_eq!(move_snake(&down, &mut t, &board), Some(GameOverEvent));
    let up = SnakeHead { direction: Heading::Up };
    let mut u = chain(&[(0, 6), (0, 5)]);
    assert_eq!(move_snake(&up, &mut u, &board), None);
    assert_eq!(cells(&u), vec![(0, 7), (0, 6)]);
}

#[test]
fn board_bounds_are_inclusive() {
    let b = Board::standard();
    assert!(b.contains(Cell::new(4, 7)));
    assert!(b.contains(Cell::new(-4, -7)));
    assert!(!b.contains(Cell::new(5, 0)));
    assert!(!b.contains(Cell::new(0, -8)));
}

#[test]
fn growth_extends_tail() {
    let mut s = chain(&[(0, 0), (-1, 0), (-2, 0)]);
    assert_eq!(check_growth(&s), Ok(()));
    assert_eq!(growth(&mut s), Cell::new(-3, 0));
    assert_eq!(cells(&s), vec![(0, 0), (-1, 0), (-2, 0), (-3, 0)]);
    let mut v = chain(&[(2, 2), (2, 3)]);
    assert_eq!(growth(&mut v), Cell::new(2, 4));
    assert_eq!(manhattan(v.0[1], v.0[2]), 1);
    assert_eq!(cells(&v), vec![(2, 2), (2, 3), (2, 4)]);
}

#[test]
fn growth_errors() {
    let gap = chain(&[(0, 0), (2, 0)]);
    assert_eq!(check_growth(&gap), Err(GrowthError::NotUnitStep));
    let short = chain(&[(0, 0)]);
    assert_eq!(check_growth(&short), Err(GrowthError::TooShort));
    let edge = chain(&[(i32::MIN + 1, 0), (i32::MIN, 0)]);
    assert_eq!(check_growth(&edge), Err(GrowthError::OffGrid));
}

#[test]
fn stopped_head_on_collision_ends_game() {
    let board = Board::standard();
    let head = SnakeHead { direction: Heading::Stopped };
    let mut on_body = chain(&[(0, 0), (0, 0)]);
    assert_eq!(move_snake(&head, &mut on_body, &board), Some(GameOverEvent));
    assert_eq!(cells(&on_body), vec![(0, 0), (0, 0)]);
    let mut off_board = chain(&[(10, 0), (9, 0)]);
    assert_eq!(move_snake(&head, &mut off_board, &board), Some(GameOverEvent));
    assert_eq!(cells(&off_board), vec![(10, 0), (9, 0)]);
    let mut on_third = chain(&[(0, 0), (1, 0), (0, 0)]);
    assert_eq!(move_snake(&head, &mut on_third, &board), Some(GameOverEvent));
    assert_eq!(cells(&on_third), vec![(0, 0), (1, 0), (0, 0)]);
    let mut g = playing(&[(10, 0), (9, 0)], Heading::Stopped, None);
    assert_eq!(g.tick(), Ok(vec![Effect::GameOver(GameOverEvent)]));
    assert_eq!(g.game_state, GameState::Over);
}

#[test]
fn first_free_draw_takes_earliest() {
    let board = Board::standard();
    let taken = vec![Cell::new(0, 0), Cell::new(1, 0)];
    let draws = vec![Cell::new(0, 0), Cell::new(9, 9), Cell::new(2, 3), Cell::new(3, 3)];
    assert_eq!(first_free_draw(&draws, &taken, &board), Some(Cell::new(2, 3)));
    let misses = vec![Cell::new(1, 0), Cell::new(-5, 0)];
    assert_eq!(first_free_draw(&misses, &taken, &board), None);
    assert_eq!(first_free_draw(&Vec::new(), &taken, &board), None);
}

#[test]
fn pause_twice_is_pause_once() {
    let mut once = playing(&[(1, 0), (0, 0), (-1, 0)], Heading::Right, Some((3, 3)));
    once.pause_game();
    let mut twice = once.clone();
    twice.pause_game();
    assert_eq!(once, twice);
    assert_eq!(once.head.direction, Heading::Stopped);
    assert_eq!(once.menu_state, MenuState::Pause);
    assert_eq!(once.game_state, GameState::Menu);
    assert!(!once.play_menu_visible);
}

#[test]
fn resume_keeps_heading_stopped() {
    let mut g = playing(&[(1, 0), (0, 0), (-1, 0)], Heading::Right, None);
    g.pause_game();
    g.unpause_game();
    assert_eq!(g.game_state, GameState::Play);
    assert_eq!(g.menu_state, MenuState::Play);
    assert_eq!(g.head.direction, Heading::Stopped);
    assert!(g.play_menu_visible);
}

#[test]
fn pause_keys_only_outside_menu() {
    let mut g = playing(&[(1, 0), (0, 0), (-1, 0)], Heading::Right, None);
    g.pause_keys(&vec![Key::Return]);
    assert_eq!(g.game_state, GameState::Play);
    g.pause_keys(&vec![Key::Escape]);
    assert_eq!(g.game_state, GameState::Menu);
    assert_eq!(g.menu_state, MenuState::Pause);
}

#[test]
fn new_game_sets_up_play() {
    let mut g = Game::new();
    assert_eq!(g.game_state, GameState::Menu);
    assert_eq!(g.menu_state, MenuState::Main);
    g.score = Score(9);
    g.new_game();
    assert_eq!(cells(&g.segments), vec![(1, 0), (0, 0), (-1, 0)]);
    assert_eq!(g.score, Score(0));
    assert_eq!(g.game_state, GameState::Play);
    assert_eq!(g.menu_state, MenuState::Play);
    let f = g.fruit.unwrap();
    assert!(g.board.contains(f));
    assert!(!contains_cell(&g.segments.0, f));
}

#[test]
fn tick_outside_play_does_nothing() {
    let mut g = playing(&[(1, 0), (0, 0), (-1, 0)], Heading::Right, None);
    g.game_state = GameState::Menu;
    let before = g.clone();
    assert_eq!(g.tick(), Ok(vec![]));
    assert_eq!(g, before);
}

#[test]
fn tick_moves_without_food() {
    let mut g = playing(&[(1, 0), (0, 0), (-1, 0)], Heading::Right, Some((-3, 3)));
    assert_eq!(g.tick(), Ok(vec![]));
    assert_eq!(cells(&g.segments), vec![(2, 0), (1, 0), (0, 0)]);
    assert_eq!(g.fruit, Some(Cell::new(-3, 3)));
    assert_eq!(g.score, Score(0));
}

#[test]
fn score_stops_at_largest_value() {
    let mut g = Game::new();
    g.score_change();
    assert_eq!(g.score, Score(1));
    g.score = Score(u16::MAX);
    g.score_change();
    assert_eq!(g.score, Score(u16::MAX));
}

#[test]
fn sampler_finds_last_free_cell() {
    let board = Board { cols: 3, rows: 3 };
    let mut taken = Vec::new();
    for x in -1..=1 {
        for y in -1..=1 {
            if (x, y) != (1, -1) {
                taken.push(Cell::new(x, y));
            }
        }
    }
    assert_eq!(generate_position(&taken, &board), Some(Cell::new(1, -1)));
    assert_eq!(first_free_cell(&taken, &board), Some(Cell::new(1, -1)));
    taken.push(Cell::new(1, -1));
    assert_eq!(generate_position(&taken, &board), None);
    assert_eq!(first_free_cell(&taken, &board), None);
}

#[test]
fn sampler_avoids_reserved_cells_before_chain() {
    let board = Board { cols: 3, rows: 1 };
    assert_eq!(generate_position(&Vec::new(), &board), None);
    let board = Board { cols: 5, rows: 1 };
    for _ in 0..50 {
        let c = generate_position(&Vec::new(), &board).unwrap();
        assert!((c.x, c.y) == (-2, 0) || (c.x, c.y) == (2, 0));
    }
    let r = blocked_cells(&Vec::new());
    assert_eq!(r, vec![Cell::new(-1, 0), Cell::new(0, 0), Cell::new(1, 0)]);
}

#[test]
fn sampler_draws_spread_over_board() {
    let board = Board::standard();
    let s = init_snake();
    let mut seen = Vec::new();
    for _ in 0..200 {
        let c = generate_position(&s.0, &board).unwrap();
        assert!(is_free(c, &s.0, &board));
        if !seen.contains(&c) {
            seen.push(c);
        }
    }
    assert!(seen.len() > 10);
}
