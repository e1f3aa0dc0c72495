//! What holds of the rules, whatever the board and the piece.

use vstd::prelude::*;
use crate::board::{blank_row, row_blank, row_full, Cell, Grid};
use crate::game::{block_rests, resting, GameState, GameView, LINE_POINTS};
use crate::input::Command;
use crate::piece::PieceView;
use crate::transform::{fits, settled, translated};

verus! {

/// A move that has one block arriving off the grid or on an occupied cell
/// leaves every block where it was.
pub proof fn law_rejected_move_changes_nothing(
    grid: Grid,
    from: Seq<(int, int)>,
    to: Seq<(int, int)>,
    i: int,
)
    requires
        0 <= i < to.len(),
        !grid.vacant(to[i].0, to[i].1),
    ensures
        settled(grid, from, to) == from,
{
}

/// A piece with a block on the bottom row is done falling.
pub proof fn law_piece_on_floor_has_landed(game: GameView, i: int)
    requires
        game.falling is Some,
        0 <= i < game.falling->0.cells.len(),
        game.falling->0.cells[i].1 == game.grid.rows.len() - 1,
    ensures
        game.landed(),
{
    let cells = game.falling->0.cells;
    assert(block_rests(game.grid, cells[i]));
}

/// A piece with an occupied cell right below one of its blocks is done
/// falling.
pub proof fn law_piece_on_stack_has_landed(game: GameView, i: int)
    requires
        game.falling is Some,
        0 <= i < game.falling->0.cells.len(),
        game.grid.occupied(game.falling->0.cells[i].0, game.falling->0.cells[i].1 + 1),
    ensures
        game.landed(),
{
    let cells = game.falling->0.cells;
    assert(block_rests(game.grid, cells[i]));
}

/// A piece with an empty cell of the grid right below each of its blocks is
/// not done falling.
pub proof fn law_piece_with_clear_path_has_not_landed(game: GameView)
    requires
        game.falling is Some,
        forall|i: int|
            0 <= i < game.falling->0.cells.len() ==> game.grid.vacant(
                (#[trigger] game.falling->0.cells[i]).0,
                game.falling->0.cells[i].1 + 1,
            ),
    ensures
        !game.landed(),
{
}

/// A soft drop earns exactly one point, whether the piece moves or not.
pub proof fn law_soft_drop_earns_one_point(game: GameView)
    ensures
        game.commanded(Command::SoftDrop).score == game.score + 1,
{
}

/// No other command earns anything.
pub proof fn law_other_commands_earn_nothing(game: GameView, command: Command)
    requires
        command != Command::SoftDrop,
    ensures
        game.commanded(command).score == game.score,
{
}

/// A tick never takes points away.
pub proof fn law_score_never_decreases(
    game: GameView,
    gravity_due: bool,
    input: Option<Command>,
    fresh: PieceView,
)
    ensures
        game.stepped(gravity_due, input, fresh).score >= game.score,
{
}

/// A tick leaves a game that is over exactly as it is.
pub proof fn law_game_over_is_final(
    game: GameView,
    gravity_due: bool,
    input: Option<Command>,
    fresh: PieceView,
)
    requires
        game.state == GameState::GameOver,
    ensures
        game.stepped(gravity_due, input, fresh) == game,
{
}

/// Nothing that a tick is made of brings a game that is over back to play.
pub proof fn law_no_rule_revives(game: GameView, command: Command, fresh: PieceView)
    requires
        game.state == GameState::GameOver,
    ensures
        game.spawned(fresh).state == GameState::GameOver,
        game.fallen().state == GameState::GameOver,
        game.commanded(command).state == GameState::GameOver,
        game.locked().state == GameState::GameOver,
        game.cleared().state == GameState::GameOver,
        game.checked().state == GameState::GameOver,
{
}

/// After the check, an occupied cell among the two topmost of the centre
/// column means that the game is over.
pub proof fn law_blocked_top_ends_game(game: GameView)
    requires
        game.top_blocked(),
    ensures
        game.checked().state == GameState::GameOver,
{
}

/// A tick that is played to its end leaves the game over if one of the two
/// topmost cells of the centre column is occupied.
pub proof fn law_tick_ends_game_on_blocked_top(
    game: GameView,
    gravity_due: bool,
    input: Option<Command>,
    fresh: PieceView,
)
    requires
        !game.quits(input),
        game.stepped(gravity_due, input, fresh).top_blocked(),
    ensures
        game.stepped(gravity_due, input, fresh).state == GameState::GameOver,
{
}

/// A new piece that does not fit at the centre of the top row ends the game.
pub proof fn law_blocked_spawn_ends_game(game: GameView, fresh: PieceView)
    requires
        !fits(game.grid, translated(fresh.cells, game.centre(), 0)),
    ensures
        game.spawned(fresh).state == GameState::GameOver,
        game.spawned(fresh).grid == game.grid,
        game.spawned(fresh).falling == game.falling,
{
}

/// The rows of `grid` with the rows above row `y` moved down by one, an
/// empty row at the top, and the rows below row `y` as they are.
pub open spec fn dropped_onto(grid: Grid, y: int) -> Seq<Seq<Cell>> {
    Seq::new(
        grid.rows.len(),
        |r: int|
            if r > y {
                grid.rows[r]
            } else if r > 0 {
                grid.rows[r - 1]
            } else {
                blank_row(grid.cols)
            },
    )
}

/// The sweep passes over rows that are neither fully occupied nor fully
/// empty without a change and without points.
proof fn lemma_sweep_passes_over(grid: Grid, n: nat, y: int)
    requires
        0 <= y < n <= grid.rows.len(),
        forall|r: int| y < r < n ==> !row_full(#[trigger] grid.rows[r]) && !row_blank(grid.rows[r]),
    ensures
        grid.swept(n) == grid.swept((y + 1) as nat),
        grid.sweep_points(n) == grid.sweep_points((y + 1) as nat),
    decreases n,
{
    if n > y + 1 {
        assert(!row_full(grid.rows[n - 1]) && !row_blank(grid.rows[n - 1]));
        assert(grid.swept_row(n - 1) == grid);
        lemma_sweep_passes_over(grid, (n - 1) as nat, y);
    }
}

/// From an empty row upwards the sweep moves every row down by one, and
/// awards nothing.
proof fn lemma_sweep_cascades(grid: Grid, n: nat)
    requires
        grid.wf(),
        grid.cols > 0,
        0 < n <= grid.rows.len(),
        row_blank(grid.rows[n - 1]),
    ensures
        grid.sweep_points(n) == 0,
        grid.swept(n).cols == grid.cols,
        grid.swept(n).rows =~= Seq::new(
            grid.rows.len(),
            |r: int|
                if r >= n {
                    grid.rows[r]
                } else if r > 0 {
                    grid.rows[r - 1]
                } else {
                    blank_row(grid.cols)
                },
        ),
    decreases n,
{
    let row = grid.rows[n - 1];
    assert(row.len() == grid.cols);
    assert(row[0] == Cell::Empty);
    assert(!row_full(row));
    assert(row =~= blank_row(grid.cols));
    let next = grid.swept_row(n - 1);
    assert(next == grid.collapsed(n - 1));
    if n == 1 {
        assert(next.rows =~= grid.rows);
        assert(next.swept(0) == next);
        assert(next.sweep_points(0) == 0);
    } else {
        assert(next.rows[n - 2] == blank_row(grid.cols));
        assert(row_blank(next.rows[n - 2]));
        assert(grid.rows[n - 2].len() == grid.cols);
        assert(next.wf()) by {
            assert forall|r: int| 0 <= r < next.rows.len() implies (#[trigger] next.rows[r]).len()
                == next.cols by {
                assert(grid.rows[r].len() == grid.cols);
            }
        }
        lemma_sweep_cascades(next, (n - 1) as nat);
    }
}

/// A line clear, on a grid with at least one column. Where row `y` is fully occupied and no row below it is
/// fully occupied or fully empty, one sweep awards 100 points for row `y`
/// and nothing else, and moves every row above row `y` down by one. A row
/// above row `y` that is fully occupied too is moved with the others and
/// earns its points in a later sweep.
pub proof fn law_line_clear(grid: Grid, y: int)
    requires
        grid.wf(),
        grid.cols > 0,
        0 <= y < grid.rows.len(),
        row_full(grid.rows[y]),
        forall|r: int|
            y < r < grid.rows.len() ==> !row_full(#[trigger] grid.rows[r]) && !row_blank(
                grid.rows[r],
            ),
    ensures
        grid.sweep_points(grid.rows.len()) == LINE_POINTS,
        grid.swept(grid.rows.len()).cols == grid.cols,
        grid.swept(grid.rows.len()).rows == dropped_onto(grid, y),
{
    let height = grid.rows.len();
    lemma_sweep_passes_over(grid, height, y);
    let next = grid.swept_row(y);
    assert(next == grid.collapsed(y));
    assert(grid.swept((y + 1) as nat) == next.swept(y as nat));
    assert(grid.sweep_points((y + 1) as nat) == 100 + next.sweep_points(y as nat));
    if y == 0 {
        assert(next.swept(0) == next);
        assert(next.sweep_points(0) == 0);
        assert(next.rows =~= dropped_onto(grid, y));
    } else {
        assert(grid.rows[y - 1].len() == grid.cols);
        assert(next.rows[y - 1] == blank_row(grid.cols));
        assert(next.wf()) by {
            assert forall|r: int| 0 <= r < next.rows.len() implies (#[trigger] next.rows[r]).len()
                == next.cols by {
                assert(grid.rows[r].len() == grid.cols);
            }
        }
        lemma_sweep_cascades(next, y as nat);
        assert(next.swept(y as nat).rows =~= dropped_onto(grid, y));
    }
}

/// Clearing the one fully occupied row of a grid awards exactly 100 points,
/// where no row below it is fully empty.
pub proof fn law_single_full_row_earns_100(grid: Grid, y: int)
    requires
        grid.wf(),
        0 <= y < grid.rows.len(),
        row_full(grid.rows[y]),
        forall|r: int| 0 <= r < grid.rows.len() && r != y ==> !row_full(#[trigger] grid.rows[r]),
        forall|r: int| y < r < grid.rows.len() ==> !row_blank(#[trigger] grid.rows[r]),
    ensures
        grid.sweep_points(grid.rows.len()) == LINE_POINTS,
{
    if grid.cols == 0 {
        if grid.rows.len() > 1 {
            let other = if y == 0 {
                1int
            } else {
                0int
            };
            assert(grid.rows[other].len() == 0);
            assert(row_full(grid.rows[other]));
        }
        assert(grid.rows.len() == 1);
        assert(grid.sweep_points(1) == 100 + grid.swept_row(0).sweep_points(0));
    } else {
        law_line_clear(grid, y);
    }
}

} // verus!
