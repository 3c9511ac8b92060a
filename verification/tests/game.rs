use rusty_the_snake::interval::tick_interval_ms;
use rusty_the_snake::state::{FRUIT_CAP, INITIAL_LENGTH, MAX_SPAWN_ATTEMPTS, SPAWN_ROLL_RANGE};
use rusty_the_snake::{Board, BoardError, Direction, Game, Position};
use std::time::Duration;

fn cell(x: i32, y: i32) -> Position {
    Position { x, y }
}

#[test]
pub fn simple_test() {
    let width: u32 = 32;
    let height: u32 = 32;
    let x = width as i32 / 2;
    let y = height as i32 / 2;
    let initial_position = Position { x: x + 4, y };
    let mut game = Game::new(width, height);
    assert_eq!(game.snake_position().len(), 5);
    assert_eq!(game.snake_head(), Some(initial_position));
    game.turn(Direction::RIGHT);
    game.tick();
    let updated_position = Position {
        x: initial_position.x + 1,
        y: initial_position.y,
    };
    assert_eq!(game.snake_head(), Some(updated_position));

    // turn mechanics
    assert_eq!(game.snake_direction(), Direction::RIGHT);
    game.turn(Direction::LEFT);
    assert_eq!(game.snake_direction(), Direction::RIGHT);
    game.tick();
    assert_eq!(game.snake_direction(), Direction::RIGHT);

    game.turn(Direction::UP);
    assert_eq!(game.snake_direction(), Direction::RIGHT);
    game.tick();
    assert_eq!(game.snake_direction(), Direction::UP);
}

#[test]
pub fn border_test() {
    let width = 7;
    let height = 7;
    let mut game = Game::new(width, height);
    println!("{:?}", game);

    game.tick();
    game.tick();
    game.tick();
    game.tick();
    game.tick();
    println!("{:?}", game);
    assert_eq!(game.is_game_over(), true);
}

#[test]
fn new_game_starts_with_a_row_of_five_heading_right() {
    let game = Game::new(32, 32);
    assert_eq!(
        game.snake_position(),
        vec![cell(16, 16), cell(17, 16), cell(18, 16), cell(19, 16), cell(20, 16)]
    );
    assert_eq!(game.snake_position().len(), INITIAL_LENGTH);
    assert_eq!(game.snake_head(), Some(cell(20, 16)));
    assert_eq!(game.snake_direction(), Direction::RIGHT);
    assert_eq!(game.turn_command(), None);
    assert_eq!(game.player_score(), 0);
    assert!(game.fruit_position().is_empty());
    assert_eq!(game.board(), Board { width: 32, height: 32 });
    assert!(!game.is_game_over());
}

#[test]
fn new_game_on_an_oblong_board_is_centred_on_both_axes() {
    let game = Game::new(40, 11);
    assert_eq!(game.snake_head(), Some(cell(24, 5)));
    assert_eq!(game.snake_position()[0], cell(20, 5));
}

#[test]
fn a_board_below_nine_cells_wide_is_over_from_the_start() {
    assert!(Game::new(8, 8).is_game_over());
    assert!(Game::new(7, 7).is_game_over());
    assert!(Game::new(1, 1).is_game_over());
    assert!(!Game::new(9, 1).is_game_over());
    assert_eq!(Game::new(9, 1).snake_head(), Some(cell(8, 0)));
}

#[test]
fn try_new_refuses_a_board_that_cannot_hold_the_snake() {
    assert_eq!(Game::try_new(8, 8).err(), Some(BoardError::TooSmall));
    assert_eq!(Game::try_new(7, 7).err(), Some(BoardError::TooSmall));
    assert_eq!(Game::try_new(0, 0).err(), Some(BoardError::TooSmall));
    assert_eq!(Game::try_new(32, 0).err(), Some(BoardError::TooSmall));
    assert_eq!(Game::try_new(0, u32::MAX).err(), Some(BoardError::TooSmall));
}

#[test]
fn try_new_refuses_a_side_beyond_the_coordinates() {
    assert_eq!(Game::try_new(u32::MAX, 32).err(), Some(BoardError::TooLarge));
    assert_eq!(Game::try_new(32, 1 << 31).err(), Some(BoardError::TooLarge));
}

#[test]
fn try_new_starts_a_game_that_is_not_over() {
    let game = Game::try_new(9, 1).unwrap();
    assert!(!game.is_game_over());
    assert_eq!(game.snake_head(), Some(cell(8, 0)));
    let large = Game::try_new(i32::MAX as u32, i32::MAX as u32).unwrap();
    assert!(!large.is_game_over());
    assert_eq!(large.snake_head(), Some(cell(1073741827, 1073741823)));
    let usual = Game::try_new(32, 32).unwrap();
    assert_eq!(usual.snake_position(), Game::new(32, 32).snake_position());
}

#[test]
fn step_without_turn_shifts_the_body_by_one_cell() {
    let mut game = Game::new(32, 32);
    assert!(game.step());
    assert_eq!(
        game.snake_position(),
        vec![cell(17, 16), cell(18, 16), cell(19, 16), cell(20, 16), cell(21, 16)]
    );
    assert_eq!(game.snake_head(), Some(cell(21, 16)));
    assert_eq!(game.snake_direction(), Direction::RIGHT);
    assert_eq!(game.player_score(), 0);
}

#[test]
fn tick_without_turn_moves_the_head_right_and_keeps_the_length() {
    let mut game = Game::new(32, 32);
    let before = game.snake_position();
    game.tick();
    let after = game.snake_position();
    assert_eq!(after.len(), before.len());
    assert_eq!(after[4], cell(before[4].x + 1, before[4].y));
    assert_eq!(&after[..4], &before[1..]);
}

#[test]
fn each_heading_moves_the_head_by_its_unit_vector() {
    let mut game = Game::new(32, 32);
    game.turn(Direction::UP);
    game.step();
    assert_eq!(game.snake_head(), Some(cell(20, 15)));
    game.turn(Direction::LEFT);
    game.step();
    assert_eq!(game.snake_head(), Some(cell(19, 15)));
    game.step();
    assert_eq!(game.snake_head(), Some(cell(18, 15)));
    game.turn(Direction::DOWN);
    game.step();
    assert_eq!(game.snake_head(), Some(cell(18, 16)));
    game.turn(Direction::RIGHT);
    game.step();
    assert_eq!(game.snake_head(), Some(cell(19, 16)));
}

#[test]
fn reversal_and_same_heading_are_dropped() {
    let mut game = Game::new(32, 32);
    game.turn(Direction::LEFT);
    assert_eq!(game.turn_command(), None);
    game.turn(Direction::RIGHT);
    assert_eq!(game.turn_command(), None);
    game.step();
    assert_eq!(game.snake_direction(), Direction::RIGHT);
    assert_eq!(game.snake_head(), Some(cell(21, 16)));
}

#[test]
fn quarter_turn_is_applied_at_the_next_step() {
    let mut game = Game::new(32, 32);
    game.turn(Direction::UP);
    assert_eq!(game.turn_command(), Some(Direction::UP));
    assert_eq!(game.snake_direction(), Direction::RIGHT);
    game.step();
    assert_eq!(game.snake_direction(), Direction::UP);
    assert_eq!(game.turn_command(), None);
}

#[test]
fn the_last_legal_turn_before_a_step_wins() {
    let mut game = Game::new(32, 32);
    game.turn(Direction::UP);
    game.turn(Direction::DOWN);
    assert_eq!(game.turn_command(), Some(Direction::DOWN));
    game.turn(Direction::LEFT);
    assert_eq!(game.turn_command(), Some(Direction::DOWN));
    game.step();
    assert_eq!(game.snake_direction(), Direction::DOWN);
    assert_eq!(game.snake_head(), Some(cell(20, 17)));
}

#[test]
fn turn_legality_goes_by_the_heading_of_the_last_move() {
    let mut game = Game::new(32, 32);
    game.turn(Direction::UP);
    // against the pending UP this would be a reversal; against RIGHT it is a quarter turn
    game.turn(Direction::DOWN);
    assert_eq!(game.turn_command(), Some(Direction::DOWN));
    // against the pending DOWN this would be a quarter turn; against RIGHT it is a reversal
    game.turn(Direction::LEFT);
    assert_eq!(game.turn_command(), Some(Direction::DOWN));
}

#[test]
fn eating_a_fruit_grows_the_snake_and_scores() {
    let mut game = Game::new(32, 32);
    assert!(game.place_fruit(cell(21, 16)));
    assert_eq!(game.fruit_position(), vec![cell(21, 16)]);
    game.tick();
    assert_eq!(game.player_score(), 1);
    assert_eq!(game.snake_position().len(), 6);
    assert_eq!(
        game.snake_position(),
        vec![cell(16, 16), cell(17, 16), cell(18, 16), cell(19, 16), cell(20, 16), cell(21, 16)]
    );
    assert!(!game.fruit_position().contains(&cell(21, 16)));
}

#[test]
fn eating_takes_only_the_oldest_fruit_on_the_cell() {
    let mut game = Game::new(32, 32);
    assert!(game.place_fruit(cell(5, 5)));
    assert!(game.place_fruit(cell(21, 16)));
    assert!(game.place_fruit(cell(6, 6)));
    assert!(game.place_fruit(cell(21, 16)));
    assert!(game.step());
    assert_eq!(game.player_score(), 1);
    assert_eq!(game.fruit_position(), vec![cell(5, 5), cell(6, 6), cell(21, 16)]);
    assert_eq!(game.snake_position().len(), 6);
}

#[test]
fn a_fruit_elsewhere_is_left_alone() {
    let mut game = Game::new(32, 32);
    assert!(game.place_fruit(cell(21, 17)));
    assert!(game.step());
    assert_eq!(game.player_score(), 0);
    assert_eq!(game.snake_position().len(), 5);
    assert_eq!(game.fruit_position(), vec![cell(21, 17)]);
}

#[test]
fn place_fruit_rejects_body_cells_and_cells_off_the_board() {
    let mut game = Game::new(32, 32);
    assert!(!game.place_fruit(cell(16, 16)));
    assert!(!game.place_fruit(cell(20, 16)));
    assert!(!game.place_fruit(cell(32, 0)));
    assert!(!game.place_fruit(cell(0, 32)));
    assert!(!game.place_fruit(cell(-1, 3)));
    assert!(!game.place_fruit(cell(3, -1)));
    assert!(game.fruit_position().is_empty());
    assert!(game.place_fruit(cell(0, 0)));
    assert!(game.place_fruit(cell(31, 31)));
    assert_eq!(game.fruit_position(), vec![cell(0, 0), cell(31, 31)]);
}

#[test]
fn place_fruit_stops_at_the_cap() {
    let mut game = Game::new(32, 32);
    for i in 0..FRUIT_CAP {
        assert!(game.place_fruit(cell(i as i32, 0)));
    }
    assert_eq!(game.fruit_position().len(), 10);
    assert!(!game.place_fruit(cell(11, 0)));
    assert_eq!(game.fruit_position().len(), 10);
}

#[test]
fn the_head_leaving_the_board_ends_the_game_and_not_before() {
    let mut game = Game::new(12, 12);
    assert_eq!(game.snake_head(), Some(cell(10, 6)));
    assert!(!game.is_game_over());
    game.tick();
    assert_eq!(game.snake_head(), Some(cell(11, 6)));
    assert!(!game.is_game_over());
    game.tick();
    assert_eq!(game.snake_head(), Some(cell(12, 6)));
    assert!(game.is_game_over());
}

#[test]
fn leaving_the_board_at_the_top_ends_the_game() {
    let mut game = Game::new(20, 3);
    assert_eq!(game.snake_head(), Some(cell(14, 1)));
    game.turn(Direction::UP);
    game.step();
    assert_eq!(game.snake_head(), Some(cell(14, 0)));
    assert!(!game.is_game_over());
    game.step();
    assert_eq!(game.snake_head(), Some(cell(14, -1)));
    assert!(game.is_game_over());
}

#[test]
fn running_into_the_body_ends_the_game() {
    let mut game = Game::new(32, 32);
    game.turn(Direction::UP);
    game.step();
    assert!(!game.is_game_over());
    game.turn(Direction::LEFT);
    game.step();
    assert!(!game.is_game_over());
    game.turn(Direction::DOWN);
    game.step();
    assert_eq!(game.snake_head(), Some(cell(19, 16)));
    assert_eq!(
        game.snake_position(),
        vec![cell(19, 16), cell(20, 16), cell(20, 15), cell(19, 15), cell(19, 16)]
    );
    assert!(game.is_game_over());
}

#[test]
fn entering_the_cell_that_the_tail_leaves_is_no_collision() {
    let mut game = Game::new(32, 32);
    // grow to eight segments, then walk a square of side two back onto the tail
    assert!(game.place_fruit(cell(21, 16)));
    assert!(game.place_fruit(cell(22, 16)));
    assert!(game.place_fruit(cell(23, 16)));
    game.step();
    game.step();
    game.step();
    assert_eq!(game.snake_position().len(), 8);
    assert_eq!(game.snake_position()[0], cell(16, 16));
    let mut short = Game::new(32, 32);
    short.turn(Direction::UP);
    short.step();
    short.turn(Direction::LEFT);
    short.step();
    short.step();
    short.turn(Direction::DOWN);
    short.step();
    // the loop closes onto (18, 16), which the tail has just left
    assert_eq!(short.snake_head(), Some(cell(18, 16)));
    assert_eq!(
        short.snake_position(),
        vec![cell(20, 16), cell(20, 15), cell(19, 15), cell(18, 15), cell(18, 16)]
    );
    assert!(!short.is_game_over());
}

#[test]
fn game_over_is_the_same_when_asked_twice() {
    let mut game = Game::new(12, 12);
    assert_eq!(game.is_game_over(), game.is_game_over());
    game.step();
    game.step();
    let first = game.is_game_over();
    let second = game.is_game_over();
    assert!(first);
    assert_eq!(first, second);
}

#[test]
fn a_game_that_is_over_no_longer_changes() {
    let mut game = Game::new(12, 12);
    game.step();
    assert!(game.step());
    assert!(game.is_game_over());
    let cells = game.snake_position();
    game.turn(Direction::UP);
    assert!(!game.step());
    game.tick();
    game.tick();
    assert_eq!(game.snake_position(), cells);
    assert_eq!(game.snake_direction(), Direction::RIGHT);
    assert!(game.fruit_position().is_empty());
    assert_eq!(game.player_score(), 0);
    assert!(game.is_game_over());
}

#[test]
fn tick_interval_follows_the_length() {
    let game = Game::new(32, 32);
    assert_eq!(game.get_snake_hz(), Duration::from_millis(240));
    let mut grown = Game::new(32, 32);
    assert!(grown.place_fruit(cell(21, 16)));
    grown.step();
    assert_eq!(grown.get_snake_hz(), Duration::from_millis(228));
}

#[test]
fn tick_interval_values() {
    assert_eq!(tick_interval_ms(0), 300);
    assert_eq!(tick_interval_ms(1), 288);
    assert_eq!(tick_interval_ms(5), 240);
    assert_eq!(tick_interval_ms(20), 60);
    assert_eq!(tick_interval_ms(21), 50);
    assert_eq!(tick_interval_ms(25), 50);
    assert_eq!(tick_interval_ms(26), 50);
    assert_eq!(tick_interval_ms(usize::MAX), 50);
}

#[test]
fn tick_interval_never_rises_with_the_length() {
    for length in 0..40usize {
        let shorter = tick_interval_ms(length);
        let longer = tick_interval_ms(length + 1);
        assert!(longer < shorter || longer == 50);
        assert!(longer <= shorter);
        assert!(longer >= 50);
    }
}

#[test]
fn spawn_lays_the_fruit_on_a_free_cell_of_the_board() {
    for _ in 0..50 {
        let mut game = Game::new(9, 1);
        assert!(MAX_SPAWN_ATTEMPTS >= 128);
        assert!(game.spawn_fruit_definitely());
        let fruits = game.fruit_position();
        assert_eq!(fruits.len(), 1);
        let fruit = fruits[0];
        assert!(0 <= fruit.x && fruit.x < 9);
        assert_eq!(fruit.y, 0);
        assert!(!game.snake_position().contains(&fruit));
        assert!(fruit.x < 4);
    }
}

#[test]
fn spawn_gives_up_on_a_board_without_free_cell() {
    // the row starts at x = 1 and covers both cells of the board but the first
    let mut covered = Game::new(3, 1);
    for _ in 0..FRUIT_CAP {
        assert!(covered.place_fruit(cell(0, 0)));
    }
    assert!(!covered.spawn_fruit_definitely());
    assert_eq!(covered.fruit_position().len(), FRUIT_CAP);
    // the row starts at x = 0 and covers the only cell of the board
    let mut single = Game::new(1, 1);
    assert!(!single.spawn_fruit_definitely());
    assert!(single.fruit_position().is_empty());
}

#[test]
fn spawn_maybe_keeps_to_the_cap() {
    let mut game = Game::new(32, 32);
    assert_eq!(SPAWN_ROLL_RANGE, 100);
    for _ in 0..2000 {
        let before = game.fruit_position();
        game.spawn_fruit_maybe();
        let after = game.fruit_position();
        assert!(after.len() == before.len() || after.len() == before.len() + 1);
        assert_eq!(&after[..before.len()], &before[..]);
        assert!(after.len() <= FRUIT_CAP);
    }
    assert_eq!(game.fruit_position().len(), FRUIT_CAP);
    for fruit in game.fruit_position() {
        assert!(Board { width: 32, height: 32 }.holds(fruit));
        assert!(!game.snake_position().contains(&fruit));
    }
}

#[test]
fn ticks_keep_the_score_in_step_with_the_length() {
    let mut game = Game::new(32, 32);
    let turns = [Direction::UP, Direction::LEFT, Direction::DOWN, Direction::RIGHT];
    let mut ticks = 0usize;
    let mut last_score = 0;
    while !game.is_game_over() && ticks < 400 {
        if ticks % 7 == 6 {
            game.turn(turns[(ticks / 7) % 4]);
        }
        game.tick();
        ticks += 1;
        assert_eq!(game.snake_position().len(), INITIAL_LENGTH + game.player_score() as usize);
        assert!(game.player_score() >= last_score);
        last_score = game.player_score();
        assert!(game.fruit_position().len() <= FRUIT_CAP);
        assert_eq!(game.turn_command(), None);
    }
}
