//! The game: a board, the piece that is falling, the score, and the rules of
//! one tick.

use vstd::prelude::*;
use crate::board::{blank_row, lemma_locked_step, Board, Cell, Grid, MAX_SIDE};
use crate::input::Command;
use crate::piece::{PieceView, Shape, Tetromino};
use crate::transform::{
    down, fits, inside, left, quarter_turned, right, rotate_counter_clockwise, settled, translate,
    translated,
};

verus! {

/// The width of the board of a default game.
pub const BOARD_WIDTH: usize = 10;

/// The height of the board of a default game.
pub const BOARD_HEIGHT: usize = 20;

/// The points for a cleared line.
pub const LINE_POINTS: u64 = 100;

/// Whether the game is still played. A game that is over stays over.
#[derive(Clone, Copy, Debug, PartialEq, Eq, Structural)]
pub enum GameState {
    Playing,
    GameOver,
}

/// What a tick tells the loop that drives the game.
#[derive(Clone, Copy, Debug, PartialEq, Eq, Structural)]
pub enum Progress {
    /// The tick was played: show the game and go on.
    Continue,
    /// The player asked to quit.
    Quit,
    /// The game was over before the tick, and nothing was done.
    Over,
}

/// The mathematical model of a game.
pub struct GameView {
    pub grid: Grid,
    pub score: nat,
    pub falling: Option<PieceView>,
    pub state: GameState,
}

/// Whether a block at `p` rests: it stands on the bottom row, or the cell
/// below it is occupied.
pub open spec fn block_rests(grid: Grid, p: (int, int)) -> bool {
    p.1 == grid.rows.len() - 1 || grid.occupied(p.0, p.1 + 1)
}

/// Whether one of the blocks at `cells` rests.
pub open spec fn resting(grid: Grid, cells: Seq<(int, int)>) -> bool {
    exists|i: int| 0 <= i < cells.len() && block_rests(grid, #[trigger] cells[i])
}

/// Where a command sends the blocks at `cells`.
pub open spec fn target(cells: Seq<(int, int)>, command: Command) -> Seq<(int, int)> {
    match command {
        Command::Quit => cells,
        Command::Left => translated(cells, -1, 0),
        Command::Right => translated(cells, 1, 0),
        Command::SoftDrop => translated(cells, 0, 1),
        Command::RotateCcw => quarter_turned(cells),
    }
}

impl GameView {
    /// The grid is well formed, and a falling piece has four blocks, all on
    /// cells of the grid.
    pub open spec fn wf(self) -> bool {
        &&& self.grid.wf()
        &&& match self.falling {
            Some(p) => p.cells.len() == 4 && inside(self.grid, p.cells),
            None => true,
        }
    }

    /// A game at its start: an empty grid, no piece, no points.
    pub open spec fn initial(cols: nat, height: nat) -> GameView {
        GameView {
            grid: Grid { cols, rows: Seq::new(height, |y: int| blank_row(cols)) },
            score: 0,
            falling: None,
            state: GameState::Playing,
        }
    }

    /// Whether the score can take the points of one more tick.
    pub open spec fn has_room(self) -> bool {
        self.score + 1 + LINE_POINTS * self.grid.rows.len() <= u64::MAX
    }

    /// The column that a new piece's own origin is moved to, and the column
    /// that ends the game when it fills up.
    pub open spec fn centre(self) -> int {
        self.grid.cols as int / 2 - 1
    }

    /// The game with its piece sent towards `to`: the piece stands there if
    /// it fits, and where it stood if not.
    pub open spec fn tried(self, to: Seq<(int, int)>) -> GameView {
        match self.falling {
            Some(p) => GameView {
                falling: Some(PieceView { shape: p.shape, cells: settled(self.grid, p.cells, to) }),
                ..self
            },
            None => self,
        }
    }

    /// The game after the new piece `fresh` was moved to the centre of the
    /// top row: it is the falling piece if it fits there; if not, the game is
    /// over and nothing else has changed.
    pub open spec fn spawned(self, fresh: PieceView) -> GameView {
        let to = translated(fresh.cells, self.centre(), 0);
        if fits(self.grid, to) {
            GameView { falling: Some(PieceView { shape: fresh.shape, cells: to }), ..self }
        } else {
            GameView { state: GameState::GameOver, ..self }
        }
    }

    /// The game after the piece was pulled down one row, if it could be.
    pub open spec fn fallen(self) -> GameView {
        match self.falling {
            Some(p) => self.tried(translated(p.cells, 0, 1)),
            None => self,
        }
    }

    /// The game after a command: the piece has moved if its move was
    /// accepted, and a soft drop has earned one point either way.
    pub open spec fn commanded(self, command: Command) -> GameView {
        let moved = match self.falling {
            Some(p) => self.tried(target(p.cells, command)),
            None => self,
        };
        GameView {
            score: if command == Command::SoftDrop {
                self.score + 1
            } else {
                self.score
            },
            ..moved
        }
    }

    /// Whether the piece is done falling.
    pub open spec fn landed(self) -> bool {
        match self.falling {
            Some(p) => resting(self.grid, p.cells),
            None => false,
        }
    }

    /// The game after the piece was locked into the grid.
    pub open spec fn locked(self) -> GameView {
        match self.falling {
            Some(p) => GameView { grid: self.grid.locked(p.cells, p.shape), falling: None, ..self },
            None => self,
        }
    }

    /// The game after a piece that is done falling was locked.
    pub open spec fn absorbed(self) -> GameView {
        if self.landed() {
            self.locked()
        } else {
            self
        }
    }

    /// The game after one sweep over the rows, from the bottom to the top.
    pub open spec fn cleared(self) -> GameView {
        GameView {
            grid: self.grid.swept(self.grid.rows.len()),
            score: self.score + self.grid.sweep_points(self.grid.rows.len()),
            ..self
        }
    }

    /// Whether one of the two topmost cells of the centre column is occupied.
    pub open spec fn top_blocked(self) -> bool {
        self.grid.occupied(self.centre(), 0) || self.grid.occupied(self.centre(), 1)
    }

    /// The game after the check for its end.
    pub open spec fn checked(self) -> GameView {
        GameView {
            state: if self.top_blocked() {
                GameState::GameOver
            } else {
                self.state
            },
            ..self
        }
    }

    /// Whether a tick with this input ends with the player's quitting.
    pub open spec fn quits(self, input: Option<Command>) -> bool {
        self.state == GameState::Playing && self.falling is Some && input == Some(Command::Quit)
    }

    /// The game after the first half of a tick. With a piece falling: the
    /// piece is pulled down if that is due, then the command is carried out.
    /// With none: `fresh` is brought in, and the input is not looked at.
    pub open spec fn acted(
        self,
        gravity_due: bool,
        input: Option<Command>,
        fresh: PieceView,
    ) -> GameView {
        if self.falling is Some {
            let pulled = if gravity_due {
                self.fallen()
            } else {
                self
            };
            match input {
                Some(command) => pulled.commanded(command),
                None => pulled,
            }
        } else {
            self.spawned(fresh)
        }
    }

    /// The game after a tick. A game that is over is left alone. A tick in
    /// which the player quits ends after its first half. Any other goes on:
    /// a piece that is done falling is locked, the rows are swept, and the
    /// end of the game is checked for.
    pub open spec fn stepped(
        self,
        gravity_due: bool,
        input: Option<Command>,
        fresh: PieceView,
    ) -> GameView {
        if self.state == GameState::GameOver {
            self
        } else if self.quits(input) {
            self.acted(gravity_due, input, fresh)
        } else {
            self.acted(gravity_due, input, fresh).absorbed().cleared().checked()
        }
    }

    /// What a tick tells the loop.
    pub open spec fn progress(self, input: Option<Command>) -> Progress {
        if self.state == GameState::GameOver {
            Progress::Over
        } else if self.quits(input) {
            Progress::Quit
        } else {
            Progress::Continue
        }
    }
}

/// A game.
pub struct Game {
    board: Board,
    score: u64,
    falling: Option<Tetromino>,
    state: GameState,
}

impl View for Game {
    type V = GameView;

    closed spec fn view(&self) -> GameView {
        GameView {
            grid: self.board@,
            score: self.score as nat,
            falling: match self.falling {
                Some(t) => Some(t@),
                None => None,
            },
            state: self.state,
        }
    }
}

impl Game {
    /// The game's invariant: its board is well formed, and so is its model.
    pub closed spec fn wf(&self) -> bool {
        &&& self.board.wf()
        &&& self@.wf()
    }

    /// A well-formed game has a well-formed model.
    pub proof fn lemma_wf(&self)
        requires
            self.wf(),
        ensures
            self@.wf(),
    {
    }

    /// A game on a board of the default size.
    pub fn default() -> (game: Game)
        ensures
            game.wf(),
            game@ == GameView::initial(BOARD_WIDTH as nat, BOARD_HEIGHT as nat),
    {
        Game::new(BOARD_WIDTH, BOARD_HEIGHT)
    }

    /// A game on an empty board of the given size, with no piece and no
    /// points.
    pub fn new(width: usize, height: usize) -> (game: Game)
        requires
            width <= MAX_SIDE,
            height <= MAX_SIDE,
        ensures
            game.wf(),
            game@ == GameView::initial(width as nat, height as nat),
    {
        let board = Board::new(width, height);
        proof {
            board.lemma_wf();
            assert(board@.rows =~= GameView::initial(width as nat, height as nat).grid.rows);
        }
        Game { board, score: 0, falling: None, state: GameState::Playing }
    }

    /// A game on the given board, with no piece and no points.
    pub fn with_board(board: Board) -> (game: Game)
        requires
            board.wf(),
        ensures
            game.wf(),
            game@ == (GameView {
                grid: board@,
                score: 0,
                falling: None,
                state: GameState::Playing,
            }),
    {
        proof {
            board.lemma_wf();
        }
        Game { board, score: 0, falling: None, state: GameState::Playing }
    }

    /// Writes `cell` at `(x, y)` of the board. Leaves the board as it is
    /// where it has no such cell.
    pub fn put(&mut self, x: i32, y: i32, cell: Cell)
        requires
            old(self).wf(),
        ensures
            final(self).wf(),
            final(self)@ == (GameView {
                grid: old(self)@.grid.with(x as int, y as int, cell),
                ..old(self)@
            }),
    {
        self.board.put(x, y, cell);
        proof {
            self.board.lemma_wf();
        }
    }

    /// The board.
    pub fn board(&self) -> (board: &Board)
        requires
            self.wf(),
        ensures
            board.wf(),
            board@ == self@.grid,
    {
        &self.board
    }

    /// The score.
    pub fn score(&self) -> (score: u64)
        ensures
            score == self@.score,
    {
        self.score
    }

    /// The falling piece, if there is one.
    pub fn falling(&self) -> (piece: Option<Tetromino>)
        ensures
            match piece {
                Some(t) => self@.falling == Some(t@),
                None => self@.falling is None,
            },
    {
        self.falling
    }

    /// Whether the game is still played.
    pub fn state(&self) -> (state: GameState)
        ensures
            state == self@.state,
    {
        self.state
    }

    /// Whether the game is over.
    pub fn is_over(&self) -> (over: bool)
        ensures
            over == (self@.state == GameState::GameOver),
    {
        match self.state {
            GameState::GameOver => true,
            GameState::Playing => false,
        }
    }

    /// Whether the score can take the points of one more tick.
    pub fn has_room(&self) -> (room: bool)
        requires
            self.wf(),
        ensures
            room == self@.has_room(),
    {
        proof {
            self.board.lemma_wf();
        }
        let most: u64 = 1 + LINE_POINTS * (self.board.height() as u64);
        self.score <= u64::MAX - most
    }

    /// Brings in the new piece `fresh` at the centre of the top row. If it
    /// does not fit there, the game is over, and no piece is falling.
    pub fn spawn(&mut self, fresh: Tetromino)
        requires
            old(self).wf(),
        ensures
            final(self).wf(),
            final(self)@ == old(self)@.spawned(fresh@),
    {
        proof {
            self.board.lemma_wf();
        }
        let mut piece = fresh;
        let centre: i16 = (self.board.width() / 2) as i16 - 1;
        if translate(&mut piece, &self.board, centre, 0) {
            self.falling = Some(piece);
        } else {
            self.state = GameState::GameOver;
        }
    }

    /// Pulls the falling piece down one row, if it can go there.
    pub fn fall(&mut self)
        requires
            old(self).wf(),
        ensures
            final(self).wf(),
            final(self)@ == old(self)@.fallen(),
    {
        if let Some(t) = self.falling {
            let mut piece = t;
            down(&mut piece, &self.board);
            self.falling = Some(piece);
        }
    }

    /// Carries out a command on the falling piece. A move that is not
    /// accepted leaves the piece where it is. A soft drop earns one point,
    /// whether the piece moved or not. Quitting changes nothing.
    pub fn command(&mut self, command: Command)
        requires
            old(self).wf(),
            old(self)@.score < u64::MAX,
        ensures
            final(self).wf(),
            final(self)@ == old(self)@.commanded(command),
    {
        if let Some(t) = self.falling {
            let mut piece = t;
            match command {
                Command::Quit => {},
                Command::Left => {
                    left(&mut piece, &self.board);
                },
                Command::Right => {
                    right(&mut piece, &self.board);
                },
                Command::SoftDrop => {
                    down(&mut piece, &self.board);
                },
                Command::RotateCcw => {
                    rotate_counter_clockwise(&mut piece, &self.board);
                },
            }
            self.falling = Some(piece);
        }
        match command {
            Command::SoftDrop => {
                self.score = self.score + 1;
            },
            _ => {},
        }
    }

    /// Whether the falling piece is done falling: one of its blocks stands on
    /// the bottom row or on an occupied cell. With no piece falling, no.
    pub fn done_falling(&self) -> (done: bool)
        requires
            self.wf(),
        ensures
            done == self@.landed(),
    {
        proof {
            self.board.lemma_wf();
        }
        match self.falling {
            Some(t) => {
                let bottom: i32 = self.board.height() as i32 - 1;
                let mut i: usize = 0;
                while i < 4
                    invariant
                        i <= 4,
                        self.wf(),
                        self.falling == Some(t),
                        bottom == self@.grid.rows.len() - 1,
                        forall|j: int| 0 <= j < i ==> !block_rests(self@.grid, #[trigger] t.cells()[j]),
                    decreases 4 - i,
                {
                    let x: i32 = t.blocks[i].x as i32;
                    let y: i32 = t.blocks[i].y as i32;
                    assert(t.cells()[i as int] == (x as int, y as int));
                    if y == bottom || self.board.is_occupied(x, y + 1) {
                        return true;
                    }
                    i += 1;
                }
                false
            },
            None => false,
        }
    }

    /// Locks the falling piece into the board: each of its four cells is
    /// occupied by a block of its shape, and no piece is falling.
    pub fn insert_falling(&mut self)
        requires
            old(self).wf(),
        ensures
            final(self).wf(),
            final(self)@ == old(self)@.locked(),
    {
        if let Some(t) = self.falling {
            let ghost start = self.board@;
            proof {
                self.board.lemma_wf();
                lemma_locked_step(start, t.cells(), t.shape, 0);
            }
            let mut i: usize = 0;
            while i < 4
                invariant
                    i <= 4,
                    self.board.wf(),
                    start.wf(),
                    self.score == old(self).score,
                    self.state == old(self).state,
                    self.board@ == start.locked(t.cells().take(i as int), t.shape),
                decreases 4 - i,
            {
                let x: i32 = t.blocks[i].x as i32;
                let y: i32 = t.blocks[i].y as i32;
                assert(t.cells()[i as int] == (x as int, y as int));
                proof {
                    lemma_locked_step(start, t.cells(), t.shape, i as int);
                }
                self.board.set(x, y, t.shape);
                i += 1;
            }
            assert(t.cells().take(4) =~= t.cells());
            proof {
                self.board.lemma_wf();
            }
            self.falling = None;
        }
    }

    /// Sweeps the rows once, from the bottom to the top. A row that is fully
    /// occupied earns 100 points. A row that is fully occupied or fully empty
    /// is collapsed: the row above moves into it and is emptied, and the top
    /// row is just emptied.
    pub fn clear_completed_lines(&mut self)
        requires
            old(self).wf(),
            old(self)@.score + LINE_POINTS * old(self)@.grid.rows.len() <= u64::MAX,
        ensures
            final(self).wf(),
            final(self)@ == old(self)@.cleared(),
    {
        proof {
            self.board.lemma_wf();
        }
        let ghost start = self.board@;
        let ghost height = start.rows.len();
        proof {
            lemma_sweep_points_bound(start, height);
        }
        let mut i: usize = self.board.height();
        while i > 0
            invariant
                i <= height,
                height == start.rows.len(),
                start == old(self).board@,
                self.board.wf(),
                self.falling == old(self).falling,
                self.state == old(self).state,
                self.board@.cols == start.cols,
                self.board@.rows.len() == height,
                self.board@.swept(i as nat) == start.swept(height),
                self.score + self.board@.sweep_points(i as nat) == old(self).score
                    + start.sweep_points(height),
                old(self).score + LINE_POINTS * height <= u64::MAX,
                start.sweep_points(height) <= LINE_POINTS * height,
                self.board@.sweep_points(i as nat) <= LINE_POINTS * i,
            decreases i,
        {
            i -= 1;
            let full = self.board.row_fully_occupied(i);
            let blank = self.board.row_empty(i);
            proof {
                lemma_sweep_points_bound(self.board@.swept_row(i as int), i as nat);
            }
            if full {
                self.score = self.score + LINE_POINTS;
            }
            if full || blank {
                self.board.collapse_row(i);
            }
        }
        proof {
            self.board.lemma_wf();
        }
    }

    /// Ends the game if one of the two topmost cells of the centre column is
    /// occupied.
    pub fn update_game_state(&mut self)
        requires
            old(self).wf(),
        ensures
            final(self).wf(),
            final(self)@ == old(self)@.checked(),
    {
        let centre: i32 = (self.board.width() / 2) as i32 - 1;
        if self.board.is_occupied(centre, 0) || self.board.is_occupied(centre, 1) {
            self.state = GameState::GameOver;
        }
    }

    /// Plays one tick, with `fresh` as the piece to bring in if none is
    /// falling.
    pub fn step(&mut self, gravity_due: bool, input: Option<Command>, fresh: Tetromino) -> (progress:
        Progress)
        requires
            old(self).wf(),
            old(self)@.has_room(),
        ensures
            final(self).wf(),
            final(self)@ == old(self)@.stepped(gravity_due, input, fresh@),
            progress == old(self)@.progress(input),
    {
        if self.is_over() {
            return Progress::Over;
        }
        if self.falling.is_some() {
            if gravity_due {
                self.fall();
            }
            match input {
                Some(Command::Quit) => {
                    return Progress::Quit;
                },
                Some(command) => {
                    self.command(command);
                },
                None => {},
            }
        } else {
            self.spawn(fresh);
        }
        if self.done_falling() {
            self.insert_falling();
        }
        self.clear_completed_lines();
        self.update_game_state();
        Progress::Continue
    }

    /// Plays one tick. Where no piece is falling, the piece that is brought
    /// in is drawn at random, so the game after the tick is the game after a
    /// step with one of the seven pieces.
    pub fn tick(&mut self, gravity_due: bool, input: Option<Command>) -> (progress: Progress)
        requires
            old(self).wf(),
            old(self)@.has_room(),
        ensures
            final(self).wf(),
            exists|shape: Shape|
                final(self)@ == old(self)@.stepped(gravity_due, input, #[trigger] shape.fresh()),
            progress == old(self)@.progress(input),
    {
        if self.is_over() {
            assert(self@ == self@.stepped(gravity_due, input, Shape::I.fresh()));
            return Progress::Over;
        }
        match self.falling {
            Some(t) => {
                assert(self@.stepped(gravity_due, input, t@) == self@.stepped(
                    gravity_due,
                    input,
                    Shape::I.fresh(),
                ));
                self.step(gravity_due, input, t)
            },
            None => {
                let fresh = Tetromino::random();
                assert(fresh@ == fresh.shape.fresh());
                self.step(gravity_due, input, fresh)
            },
        }
    }
}

/// The sweep awards at most 100 points for each row it comes to.
pub proof fn lemma_sweep_points_bound(grid: Grid, n: nat)
    ensures
        grid.sweep_points(n) <= LINE_POINTS * n,
    decreases n,
{
    if n > 0 {
        lemma_sweep_points_bound(grid.swept_row(n - 1), (n - 1) as nat);
    }
}

} // verus!
