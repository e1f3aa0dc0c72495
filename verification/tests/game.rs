use tetris_engine::board::{Board, Cell};
use tetris_engine::game::{Game, GameState, Progress, BOARD_HEIGHT, BOARD_WIDTH, LINE_POINTS};
use tetris_engine::geometry::Point;
use tetris_engine::input::Command;
use tetris_engine::piece::{Shape, Tetromino};

fn at(t: &Tetromino) -> [(i16, i16); 4] {
    [
        (t.blocks[0].x, t.blocks[0].y),
        (t.blocks[1].x, t.blocks[1].y),
        (t.blocks[2].x, t.blocks[2].y),
        (t.blocks[3].x, t.blocks[3].y),
    ]
}

fn falling_at(game: &Game) -> [(i16, i16); 4] {
    at(&game.falling().unwrap())
}

fn occupied_cells(board: &Board) -> Vec<(i32, i32)> {
    let mut cells = Vec::new();
    for y in 0..board.height() as i32 {
        for x in 0..board.width() as i32 {
            if board.is_occupied(x, y) {
                cells.push((x, y));
            }
        }
    }
    cells
}

fn fill_row(game: &mut Game, y: i32, tag: Shape) {
    for x in 0..game.board().width() as i32 {
        game.put(x, y, Cell::Occupied(tag));
    }
}

#[test]
fn default_sizes_are_ten_by_twenty() {
    assert_eq!(BOARD_WIDTH, 10);
    assert_eq!(BOARD_HEIGHT, 20);
    assert_eq!(LINE_POINTS, 100);
}

#[test]
fn new_game_is_empty_and_playing() {
    let game = Game::new(6, 8);
    assert_eq!(game.board().width(), 6);
    assert_eq!(game.board().height(), 8);
    assert_eq!(game.score(), 0);
    assert_eq!(game.falling(), None);
    assert_eq!(game.state(), GameState::Playing);
    assert!(!game.is_over());
    assert!(occupied_cells(game.board()).is_empty());
}

#[test]
fn default_game_has_the_default_board() {
    let game = Game::default();
    assert_eq!(game.board().width(), 10);
    assert_eq!(game.board().height(), 20);
    assert_eq!(game.score(), 0);
    assert_eq!(game.falling(), None);
    assert_eq!(game.state(), GameState::Playing);
    assert!(occupied_cells(game.board()).is_empty());
}

#[test]
fn with_board_keeps_the_board() {
    let mut board = Board::new(4, 4);
    board.set(1, 3, Shape::J);
    let game = Game::with_board(board);
    assert_eq!(occupied_cells(game.board()), vec![(1, 3)]);
    assert_eq!(game.board().get(1, 3), Some(Cell::Occupied(Shape::J)));
    assert_eq!(game.score(), 0);
    assert_eq!(game.falling(), None);
    assert_eq!(game.state(), GameState::Playing);
}

#[test]
fn put_writes_into_the_board_only() {
    let mut game = Game::default();
    game.spawn(Tetromino::o());
    game.put(0, 19, Cell::Occupied(Shape::S));
    game.put(10, 19, Cell::Occupied(Shape::S));
    assert_eq!(occupied_cells(game.board()), vec![(0, 19)]);
    assert_eq!(falling_at(&game), [(4, 0), (4, 1), (5, 0), (5, 1)]);
    game.put(0, 19, Cell::Empty);
    assert!(occupied_cells(game.board()).is_empty());
}

#[test]
fn spawn_puts_the_piece_at_the_centre_of_the_top() {
    let mut game = Game::default();
    game.spawn(Tetromino::i());
    assert_eq!(falling_at(&game), [(4, 0), (4, 1), (4, 2), (4, 3)]);
    assert_eq!(game.falling().unwrap().shape, Shape::I);
    assert_eq!(game.state(), GameState::Playing);
    assert!(occupied_cells(game.board()).is_empty());
}

#[test]
fn spawn_centres_on_half_the_width_less_one() {
    for (width, column) in [(2usize, 0i16), (3, 0), (4, 1), (7, 2), (12, 5)] {
        let mut game = Game::new(width, 6);
        game.spawn(Tetromino::i());
        assert_eq!(falling_at(&game), [(column, 0), (column, 1), (column, 2), (column, 3)]);
    }
}

#[test]
fn spawn_onto_an_occupied_cell_ends_the_game() {
    let mut game = Game::default();
    game.put(4, 3, Cell::Occupied(Shape::Z));
    game.spawn(Tetromino::i());
    assert_eq!(game.state(), GameState::GameOver);
    assert_eq!(game.falling(), None);
    assert_eq!(occupied_cells(game.board()), vec![(4, 3)]);
    assert_eq!(game.score(), 0);
}

#[test]
fn spawn_on_a_board_too_small_ends_the_game() {
    let mut game = Game::new(1, 4);
    game.spawn(Tetromino::i());
    assert_eq!(game.state(), GameState::GameOver);
    assert_eq!(game.falling(), None);
    let mut game = Game::new(10, 3);
    game.spawn(Tetromino::i());
    assert_eq!(game.state(), GameState::GameOver);
    let mut game = Game::new(0, 0);
    game.spawn(Tetromino::o());
    assert_eq!(game.state(), GameState::GameOver);
}

#[test]
fn fall_pulls_the_piece_down_without_points() {
    let mut game = Game::default();
    game.spawn(Tetromino::o());
    game.fall();
    assert_eq!(falling_at(&game), [(4, 1), (4, 2), (5, 1), (5, 2)]);
    assert_eq!(game.score(), 0);
}

#[test]
fn fall_without_a_piece_changes_nothing() {
    let mut game = Game::default();
    game.fall();
    assert_eq!(game.falling(), None);
    assert_eq!(game.score(), 0);
    assert_eq!(game.state(), GameState::Playing);
}

#[test]
fn commands_move_the_piece() {
    let mut game = Game::default();
    game.spawn(Tetromino::t());
    game.command(Command::Left);
    assert_eq!(falling_at(&game), [(3, 0), (3, 1), (3, 2), (4, 1)]);
    game.command(Command::Right);
    game.command(Command::Right);
    assert_eq!(falling_at(&game), [(5, 0), (5, 1), (5, 2), (6, 1)]);
    game.command(Command::SoftDrop);
    assert_eq!(falling_at(&game), [(5, 1), (5, 2), (5, 3), (6, 2)]);
    game.command(Command::RotateCcw);
    assert_eq!(falling_at(&game), [(6, 2), (5, 2), (4, 2), (5, 3)]);
    game.command(Command::Quit);
    assert_eq!(falling_at(&game), [(6, 2), (5, 2), (4, 2), (5, 3)]);
    assert_eq!(game.score(), 1);
}

#[test]
fn soft_drop_earns_a_point_when_the_piece_moves() {
    let mut game = Game::default();
    game.spawn(Tetromino::o());
    game.command(Command::SoftDrop);
    assert_eq!(game.score(), 1);
    assert_eq!(falling_at(&game), [(4, 1), (4, 2), (5, 1), (5, 2)]);
}

#[test]
fn soft_drop_earns_a_point_when_the_piece_cannot_move() {
    let mut game = Game::new(10, 2);
    game.spawn(Tetromino::o());
    let before = game.falling();
    game.command(Command::SoftDrop);
    game.command(Command::SoftDrop);
    assert_eq!(game.score(), 2);
    assert_eq!(game.falling(), before);
}

#[test]
fn soft_drop_earns_a_point_without_a_piece() {
    let mut game = Game::default();
    game.command(Command::SoftDrop);
    assert_eq!(game.score(), 1);
    assert_eq!(game.falling(), None);
}

#[test]
fn other_commands_earn_nothing() {
    let mut game = Game::default();
    game.spawn(Tetromino::o());
    for command in [Command::Left, Command::Right, Command::RotateCcw, Command::Quit] {
        game.command(command);
    }
    assert_eq!(game.score(), 0);
}

#[test]
fn rejected_command_leaves_the_piece() {
    let mut game = Game::default();
    game.spawn(Tetromino::i());
    for _ in 0..4 {
        game.command(Command::Left);
    }
    assert_eq!(falling_at(&game), [(0, 0), (0, 1), (0, 2), (0, 3)]);
    let before = game.falling();
    game.command(Command::Left);
    assert_eq!(game.falling(), before);
    game.command(Command::RotateCcw);
    assert_eq!(game.falling(), before);
}

#[test]
fn piece_on_the_floor_is_done_falling() {
    let mut game = Game::new(10, 4);
    game.spawn(Tetromino::i());
    assert!(game.done_falling());
}

#[test]
fn piece_on_a_block_is_done_falling() {
    let mut game = Game::default();
    game.put(5, 2, Cell::Occupied(Shape::L));
    game.spawn(Tetromino::o());
    assert!(game.done_falling());
}

#[test]
fn piece_with_a_clear_path_is_not_done_falling() {
    let mut game = Game::default();
    game.put(3, 2, Cell::Occupied(Shape::L));
    game.put(6, 2, Cell::Occupied(Shape::L));
    game.put(4, 3, Cell::Occupied(Shape::L));
    game.spawn(Tetromino::o());
    assert!(!game.done_falling());
    game.fall();
    assert!(game.done_falling());
}

#[test]
fn no_piece_is_not_done_falling() {
    let mut game = Game::new(10, 1);
    assert!(!game.done_falling());
    fill_row(&mut game, 0, Shape::I);
    assert!(!game.done_falling());
}

#[test]
fn insert_falling_locks_the_four_cells() {
    let mut game = Game::default();
    game.spawn(Tetromino::j());
    game.insert_falling();
    assert_eq!(game.falling(), None);
    assert_eq!(occupied_cells(game.board()), vec![(6, 0), (4, 1), (5, 1), (6, 1)]);
    for (x, y) in [(6, 0), (4, 1), (5, 1), (6, 1)] {
        assert_eq!(game.board().get(x, y), Some(Cell::Occupied(Shape::J)));
    }
    assert_eq!(game.score(), 0);
    assert_eq!(game.state(), GameState::Playing);
}

#[test]
fn insert_falling_without_a_piece_changes_nothing() {
    let mut game = Game::default();
    game.put(2, 2, Cell::Occupied(Shape::T));
    game.insert_falling();
    assert_eq!(occupied_cells(game.board()), vec![(2, 2)]);
    assert_eq!(game.falling(), None);
}

#[test]
fn clearing_a_full_bottom_row_earns_100() {
    let mut game = Game::default();
    fill_row(&mut game, 19, Shape::I);
    game.clear_completed_lines();
    assert_eq!(game.score(), 100);
    assert!(game.board().row_empty(19));
    assert!(occupied_cells(game.board()).is_empty());
}

#[test]
fn clearing_moves_the_rows_above_down() {
    let mut game = Game::new(4, 6);
    game.put(0, 2, Cell::Occupied(Shape::S));
    game.put(1, 3, Cell::Occupied(Shape::T));
    fill_row(&mut game, 4, Shape::I);
    game.put(3, 5, Cell::Occupied(Shape::Z));
    game.clear_completed_lines();
    assert_eq!(game.score(), 100);
    assert_eq!(occupied_cells(game.board()), vec![(0, 3), (1, 4), (3, 5)]);
    assert_eq!(game.board().get(0, 3), Some(Cell::Occupied(Shape::S)));
    assert_eq!(game.board().get(1, 4), Some(Cell::Occupied(Shape::T)));
    assert_eq!(game.board().get(3, 5), Some(Cell::Occupied(Shape::Z)));
}

#[test]
fn clearing_a_full_top_row_empties_it() {
    let mut game = Game::new(3, 2);
    fill_row(&mut game, 0, Shape::O);
    game.put(1, 1, Cell::Occupied(Shape::L));
    game.clear_completed_lines();
    assert_eq!(game.score(), 100);
    assert_eq!(occupied_cells(game.board()), vec![(1, 1)]);
}

#[test]
fn sweep_without_a_full_row_earns_nothing() {
    let mut game = Game::new(4, 4);
    game.put(0, 3, Cell::Occupied(Shape::S));
    game.put(1, 2, Cell::Occupied(Shape::S));
    game.clear_completed_lines();
    assert_eq!(game.score(), 0);
    assert_eq!(occupied_cells(game.board()), vec![(1, 2), (0, 3)]);
}

#[test]
fn sweep_lets_a_row_sink_into_an_empty_row() {
    let mut game = Game::new(4, 6);
    game.put(2, 1, Cell::Occupied(Shape::T));
    game.clear_completed_lines();
    assert_eq!(occupied_cells(game.board()), vec![(2, 2)]);
    game.clear_completed_lines();
    assert_eq!(occupied_cells(game.board()), vec![(2, 3)]);
    game.clear_completed_lines();
    game.clear_completed_lines();
    assert_eq!(occupied_cells(game.board()), vec![(2, 5)]);
    game.clear_completed_lines();
    assert_eq!(occupied_cells(game.board()), vec![(2, 5)]);
    assert_eq!(game.score(), 0);
}

#[test]
fn two_full_rows_are_cleared_by_two_sweeps() {
    let mut game = Game::new(3, 5);
    game.put(1, 2, Cell::Occupied(Shape::J));
    fill_row(&mut game, 3, Shape::I);
    fill_row(&mut game, 4, Shape::O);
    game.clear_completed_lines();
    assert_eq!(game.score(), 100);
    assert!(game.board().row_fully_occupied(4));
    assert_eq!(game.board().get(0, 4), Some(Cell::Occupied(Shape::I)));
    assert_eq!(occupied_cells(game.board()), vec![(1, 3), (0, 4), (1, 4), (2, 4)]);
    game.clear_completed_lines();
    assert_eq!(game.score(), 200);
    assert_eq!(occupied_cells(game.board()), vec![(1, 4)]);
}

#[test]
fn full_row_above_an_empty_row_sinks_before_it_is_cleared() {
    let mut game = Game::new(1, 2);
    game.put(0, 0, Cell::Occupied(Shape::I));
    game.clear_completed_lines();
    assert_eq!(game.score(), 0);
    assert_eq!(occupied_cells(game.board()), vec![(0, 1)]);
    game.clear_completed_lines();
    assert_eq!(game.score(), 100);
    assert!(occupied_cells(game.board()).is_empty());
}

#[test]
fn rows_without_cells_each_earn_100() {
    let mut game = Game::new(0, 3);
    game.clear_completed_lines();
    assert_eq!(game.score(), 300);
}

#[test]
fn sweep_leaves_the_falling_piece_alone() {
    let mut game = Game::default();
    game.spawn(Tetromino::z());
    let before = game.falling();
    fill_row(&mut game, 19, Shape::I);
    game.clear_completed_lines();
    assert_eq!(game.falling(), before);
    assert_eq!(game.state(), GameState::Playing);
}

#[test]
fn occupied_top_centre_cell_ends_the_game() {
    let mut game = Game::default();
    game.put(4, 0, Cell::Occupied(Shape::I));
    game.update_game_state();
    assert_eq!(game.state(), GameState::GameOver);
    assert!(game.is_over());
}

#[test]
fn occupied_second_centre_cell_ends_the_game() {
    let mut game = Game::default();
    game.put(4, 1, Cell::Occupied(Shape::I));
    game.update_game_state();
    assert_eq!(game.state(), GameState::GameOver);
}

#[test]
fn other_cells_do_not_end_the_game() {
    let mut game = Game::default();
    for y in 0..20 {
        for x in 0..10 {
            if x != 4 || y > 1 {
                game.put(x, y, Cell::Occupied(Shape::I));
            }
        }
    }
    game.update_game_state();
    assert_eq!(game.state(), GameState::Playing);
}

#[test]
fn check_for_the_end_reads_no_cell_off_the_board() {
    let mut game = Game::new(1, 1);
    game.put(0, 0, Cell::Occupied(Shape::I));
    game.update_game_state();
    assert_eq!(game.state(), GameState::Playing);
    let mut game = Game::new(2, 1);
    game.update_game_state();
    assert_eq!(game.state(), GameState::Playing);
    game.put(0, 0, Cell::Occupied(Shape::I));
    game.update_game_state();
    assert_eq!(game.state(), GameState::GameOver);
}

#[test]
fn game_over_is_never_taken_back() {
    let mut game = Game::default();
    game.put(4, 0, Cell::Occupied(Shape::I));
    game.update_game_state();
    game.put(4, 0, Cell::Empty);
    game.update_game_state();
    assert_eq!(game.state(), GameState::GameOver);
    game.spawn(Tetromino::o());
    game.fall();
    game.command(Command::Left);
    game.insert_falling();
    game.clear_completed_lines();
    game.update_game_state();
    assert_eq!(game.state(), GameState::GameOver);
}

#[test]
fn step_on_a_finished_game_changes_nothing() {
    let mut game = Game::default();
    game.put(4, 1, Cell::Occupied(Shape::I));
    fill_row(&mut game, 19, Shape::O);
    game.update_game_state();
    let cells = occupied_cells(game.board());
    for input in [None, Some(Command::SoftDrop), Some(Command::Quit), Some(Command::Left)] {
        assert_eq!(game.step(true, input, Tetromino::t()), Progress::Over);
        assert_eq!(game.tick(true, input), Progress::Over);
        assert_eq!(game.state(), GameState::GameOver);
        assert_eq!(game.score(), 0);
        assert_eq!(game.falling(), None);
        assert_eq!(occupied_cells(game.board()), cells);
    }
}

#[test]
fn step_without_a_piece_brings_one_in() {
    let mut game = Game::default();
    assert_eq!(game.step(true, Some(Command::SoftDrop), Tetromino::l()), Progress::Continue);
    assert_eq!(falling_at(&game), [(4, 0), (5, 0), (6, 0), (6, 1)]);
    assert_eq!(game.score(), 0);
}

#[test]
fn step_pulls_the_piece_down_when_gravity_is_due() {
    let mut game = Game::default();
    game.spawn(Tetromino::o());
    assert_eq!(game.step(false, None, Tetromino::i()), Progress::Continue);
    assert_eq!(falling_at(&game), [(4, 0), (4, 1), (5, 0), (5, 1)]);
    assert_eq!(game.step(true, None, Tetromino::i()), Progress::Continue);
    assert_eq!(falling_at(&game), [(4, 1), (4, 2), (5, 1), (5, 2)]);
    assert_eq!(game.score(), 0);
}

#[test]
fn step_applies_gravity_and_then_the_command() {
    let mut game = Game::default();
    game.spawn(Tetromino::o());
    assert_eq!(game.step(true, Some(Command::SoftDrop), Tetromino::i()), Progress::Continue);
    assert_eq!(falling_at(&game), [(4, 2), (4, 3), (5, 2), (5, 3)]);
    assert_eq!(game.score(), 1);
    assert_eq!(game.step(true, Some(Command::Left), Tetromino::i()), Progress::Continue);
    assert_eq!(falling_at(&game), [(3, 3), (3, 4), (4, 3), (4, 4)]);
    assert_eq!(game.score(), 1);
}

#[test]
fn step_with_quit_stops_after_gravity() {
    let mut game = Game::new(10, 3);
    game.spawn(Tetromino::o());
    fill_row(&mut game, 2, Shape::I);
    game.put(4, 2, Cell::Empty);
    game.put(5, 2, Cell::Empty);
    assert_eq!(game.step(true, Some(Command::Quit), Tetromino::i()), Progress::Quit);
    assert_eq!(falling_at(&game), [(4, 1), (4, 2), (5, 1), (5, 2)]);
    assert_eq!(game.score(), 0);
    assert_eq!(occupied_cells(game.board()).len(), 8);
    assert_eq!(game.state(), GameState::Playing);
}

#[test]
fn quit_is_not_read_while_no_piece_is_falling() {
    let mut game = Game::default();
    assert_eq!(game.step(false, Some(Command::Quit), Tetromino::s()), Progress::Continue);
    assert_eq!(falling_at(&game), [(4, 1), (4, 2), (5, 0), (5, 1)]);
}

#[test]
fn step_locks_a_landed_piece_and_clears_the_line() {
    let mut game = Game::new(4, 4);
    fill_row(&mut game, 3, Shape::I);
    game.put(1, 3, Cell::Empty);
    game.put(2, 3, Cell::Empty);
    fill_row(&mut game, 2, Shape::I);
    game.put(1, 2, Cell::Empty);
    game.put(2, 2, Cell::Empty);
    game.spawn(Tetromino::o());
    assert_eq!(falling_at(&game), [(1, 0), (1, 1), (2, 0), (2, 1)]);
    assert_eq!(game.step(true, None, Tetromino::i()), Progress::Continue);
    assert_eq!(falling_at(&game), [(1, 1), (1, 2), (2, 1), (2, 2)]);
    assert_eq!(game.score(), 0);
    assert_eq!(game.step(true, None, Tetromino::i()), Progress::Continue);
    assert_eq!(game.falling(), None);
    assert_eq!(game.score(), 100);
    assert!(game.board().row_fully_occupied(3));
    assert_eq!(game.state(), GameState::Playing);
    assert_eq!(game.step(true, None, Tetromino::i()), Progress::Continue);
    assert_eq!(game.score(), 200);
    assert!(occupied_cells(game.board()).is_empty());
    assert_eq!(game.state(), GameState::GameOver);
    assert_eq!(game.falling(), None);
}

#[test]
fn i_piece_falls_to_the_floor_and_its_row_is_cleared() {
    let mut game = Game::default();
    game.spawn(Tetromino::i());
    assert_eq!(falling_at(&game), [(4, 0), (4, 1), (4, 2), (4, 3)]);
    for _ in 0..19 {
        game.fall();
    }
    assert_eq!(falling_at(&game), [(4, 16), (4, 17), (4, 18), (4, 19)]);
    let rested = game.falling();
    game.fall();
    assert_eq!(game.falling(), rested);
    assert_eq!(game.score(), 0);
    assert_eq!(game.state(), GameState::Playing);
    assert!(game.done_falling());
    game.insert_falling();
    assert_eq!(occupied_cells(game.board()), vec![(4, 16), (4, 17), (4, 18), (4, 19)]);
    for x in 0..10 {
        if x != 4 {
            game.put(x, 19, Cell::Occupied(Shape::O));
        }
    }
    assert!(game.board().row_fully_occupied(19));
    let before = game.score();
    game.clear_completed_lines();
    assert_eq!(game.score(), before + 100);
    assert!(!game.board().row_fully_occupied(19));
    for x in 0..10 {
        if x != 4 {
            assert_eq!(game.board().get(x, 19), Some(Cell::Empty));
        }
    }
    assert_eq!(occupied_cells(game.board()), vec![(4, 17), (4, 18), (4, 19)]);
}

#[test]
fn stack_up_to_the_spawn_cells_ends_the_game() {
    let mut game = Game::default();
    let mut ticks = 0;
    while !game.is_over() {
        assert_eq!(game.step(true, None, Tetromino::t()), Progress::Continue);
        ticks += 1;
        assert!(ticks < 1000);
    }
    assert_eq!(game.state(), GameState::GameOver);
    assert_eq!(game.falling(), None);
    assert_eq!(game.score(), 0);
    assert!(game.board().is_empty(4, 0));
    assert!(game.board().is_empty(4, 1));
    for y in 2..20 {
        assert_eq!(game.board().get(4, y), Some(Cell::Occupied(Shape::T)));
    }
    assert_eq!(occupied_cells(game.board()).len(), 24);
    let cells = occupied_cells(game.board());
    assert_eq!(game.step(true, None, Tetromino::t()), Progress::Over);
    assert_eq!(game.state(), GameState::GameOver);
    assert_eq!(occupied_cells(game.board()), cells);
}

#[test]
fn stack_into_the_top_centre_cells_ends_the_game() {
    let mut game = Game::default();
    let mut locked = 0;
    let mut ticks = 0;
    while !game.is_over() {
        let had_piece = game.falling().is_some();
        assert_eq!(game.step(true, None, Tetromino::i()), Progress::Continue);
        if (had_piece || game.board().is_occupied(4, 3)) && game.falling().is_none() {
            locked += 1;
        }
        ticks += 1;
        assert!(ticks < 1000);
    }
    assert_eq!(locked, 5);
    for y in 0..20 {
        assert_eq!(game.board().get(4, y), Some(Cell::Occupied(Shape::I)));
    }
    assert_eq!(game.step(false, None, Tetromino::i()), Progress::Over);
}

#[test]
fn tick_brings_in_a_piece_of_the_catalogue() {
    for _ in 0..50 {
        let mut game = Game::default();
        assert_eq!(game.tick(false, Some(Command::Quit)), Progress::Continue);
        let piece = game.falling().unwrap();
        let fresh = Tetromino::new(piece.shape);
        for i in 0..4 {
            assert_eq!(
                piece.blocks[i],
                Point { x: fresh.blocks[i].x + 4, y: fresh.blocks[i].y }
            );
        }
    }
}

#[test]
fn tick_with_a_piece_is_a_step() {
    let mut game = Game::default();
    game.spawn(Tetromino::z());
    assert_eq!(game.tick(true, Some(Command::Right)), Progress::Continue);
    assert_eq!(falling_at(&game), [(5, 1), (5, 2), (6, 2), (6, 3)]);
    assert_eq!(game.tick(false, Some(Command::Quit)), Progress::Quit);
    assert_eq!(falling_at(&game), [(5, 1), (5, 2), (6, 2), (6, 3)]);
}

#[test]
fn game_of_random_pieces_comes_to_an_end() {
    let mut game = Game::default();
    let mut ticks = 0;
    let mut score = 0;
    loop {
        assert!(game.has_room());
        let progress = game.tick(true, None);
        if progress == Progress::Over {
            break;
        }
        assert_eq!(progress, Progress::Continue);
        assert!(game.score() >= score);
        score = game.score();
        if let Some(piece) = game.falling() {
            for block in piece.blocks.iter() {
                assert!(0 <= block.x && block.x < 10);
                assert!(0 <= block.y && block.y < 20);
            }
        }
        ticks += 1;
        assert!(ticks < 10000);
    }
    assert!(game.is_over());
}

#[test]
fn has_room_on_a_new_game() {
    let game = Game::new(MAX, MAX);
    assert!(game.has_room());
}

const MAX: usize = 40;
