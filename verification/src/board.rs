//! The board: a fixed grid of cells, each empty or holding a locked block.

use vstd::prelude::*;
use crate::piece::Shape;

verus! {

/// One cell of the board.
#[derive(Clone, Copy, Debug, PartialEq, Eq, Structural)]
pub enum Cell {
    Empty,
    /// A locked block, tagged with the shape of the piece it came from.
    Occupied(Shape),
}

/// The largest width and the largest height of a board: block positions are
/// 16-bit signed numbers.
pub const MAX_SIDE: usize = 0x7fff;

/// The mathematical model of a board: its width and its rows, from the top.
pub struct Grid {
    pub cols: nat,
    pub rows: Seq<Seq<Cell>>,
}

/// A row of `cols` empty cells.
pub open spec fn blank_row(cols: nat) -> Seq<Cell> {
    Seq::new(cols, |x: int| Cell::Empty)
}

/// Whether every cell of the row is occupied.
pub open spec fn row_full(row: Seq<Cell>) -> bool {
    forall|x: int| 0 <= x < row.len() ==> row[x] != Cell::Empty
}

/// Whether every cell of the row is empty.
pub open spec fn row_blank(row: Seq<Cell>) -> bool {
    forall|x: int| 0 <= x < row.len() ==> row[x] == Cell::Empty
}

impl Grid {
    /// The number of rows.
    pub open spec fn height(self) -> nat {
        self.rows.len()
    }

    /// Every row has `cols` cells, and both sides fit a block position.
    pub open spec fn wf(self) -> bool {
        &&& self.cols <= MAX_SIDE
        &&& self.rows.len() <= MAX_SIDE
        &&& forall|y: int| 0 <= y < self.rows.len() ==> (#[trigger] self.rows[y]).len() == self.cols
    }

    /// Whether `(x, y)` is a cell of the grid.
    pub open spec fn contains(self, x: int, y: int) -> bool {
        0 <= x < self.cols && 0 <= y < self.rows.len()
    }

    /// Whether `(x, y)` is a cell of the grid and empty.
    pub open spec fn vacant(self, x: int, y: int) -> bool {
        self.contains(x, y) && self.rows[y][x] == Cell::Empty
    }

    /// Whether `(x, y)` is a cell of the grid and occupied.
    pub open spec fn occupied(self, x: int, y: int) -> bool {
        self.contains(x, y) && self.rows[y][x] != Cell::Empty
    }

    /// The grid with `cell` at `(x, y)`; the same grid where it has no such
    /// cell.
    pub open spec fn with(self, x: int, y: int, cell: Cell) -> Grid {
        if self.contains(x, y) {
            Grid { cols: self.cols, rows: self.rows.update(y, self.rows[y].update(x, cell)) }
        } else {
            self
        }
    }

    /// The grid with every cell at one of the positions `cells` occupied by
    /// a block tagged `tag`, and every other cell as it is.
    pub open spec fn locked(self, cells: Seq<(int, int)>, tag: Shape) -> Grid {
        Grid {
            cols: self.cols,
            rows: Seq::new(
                self.rows.len(),
                |y: int|
                    Seq::new(
                        self.rows[y].len(),
                        |x: int|
                            if cells.contains((x, y)) {
                                Cell::Occupied(tag)
                            } else {
                                self.rows[y][x]
                            },
                    ),
            ),
        }
    }

    /// The grid with row `y` emptied; the same grid where it has no such row.
    pub open spec fn row_cleared(self, y: int) -> Grid {
        if 0 <= y < self.rows.len() {
            Grid { cols: self.cols, rows: self.rows.update(y, blank_row(self.cols)) }
        } else {
            self
        }
    }

    /// The grid with row `y - 1` moved into row `y` and row `y - 1` emptied;
    /// the same grid where it does not have both rows.
    pub open spec fn row_shifted_down(self, y: int) -> Grid {
        if 0 < y < self.rows.len() {
            Grid {
                cols: self.cols,
                rows: self.rows.update(y, self.rows[y - 1]).update(y - 1, blank_row(self.cols)),
            }
        } else {
            self
        }
    }

    /// The grid with row `y` collapsed: the top row is emptied, any other row
    /// takes the row above it, which is emptied.
    pub open spec fn collapsed(self, y: int) -> Grid {
        if y == 0 {
            self.row_cleared(0)
        } else {
            self.row_shifted_down(y)
        }
    }

    /// The points that the sweep awards when it comes to row `y`: 100 for a
    /// fully occupied row.
    pub open spec fn points_at(self, y: int) -> nat {
        if 0 <= y < self.rows.len() && row_full(self.rows[y]) {
            100
        } else {
            0
        }
    }

    /// The grid after the sweep has dealt with row `y`: a row that is fully
    /// occupied or fully empty is collapsed, any other row is left alone.
    pub open spec fn swept_row(self, y: int) -> Grid {
        if 0 <= y < self.rows.len() && (row_full(self.rows[y]) || row_blank(self.rows[y])) {
            self.collapsed(y)
        } else {
            self
        }
    }

    /// The grid after the sweep has dealt with the rows `n - 1` down to `0`,
    /// one after the other, each as the rows below have left it.
    pub open spec fn swept(self, n: nat) -> Grid
        decreases n,
    {
        if n == 0 {
            self
        } else {
            self.swept_row(n - 1).swept((n - 1) as nat)
        }
    }

    /// The points that the sweep awards on its way from row `n - 1` to row
    /// `0`.
    pub open spec fn sweep_points(self, n: nat) -> nat
        decreases n,
    {
        if n == 0 {
            0
        } else {
            self.points_at(n - 1) + self.swept_row(n - 1).sweep_points((n - 1) as nat)
        }
    }
}

/// Locking one block more is writing one cell more.
pub proof fn lemma_locked_step(grid: Grid, cells: Seq<(int, int)>, tag: Shape, n: int)
    requires
        grid.wf(),
        0 <= n < cells.len(),
    ensures
        grid.locked(cells.take(n + 1), tag) == grid.locked(cells.take(n), tag).with(
            cells[n].0,
            cells[n].1,
            Cell::Occupied(tag),
        ),
        grid.locked(cells.take(0), tag) == grid,
{
    let more = cells.take(n + 1);
    let fewer = cells.take(n);
    let a = grid.locked(more, tag);
    let before = grid.locked(fewer, tag);
    let b = before.with(cells[n].0, cells[n].1, Cell::Occupied(tag));
    assert(a.rows.len() == b.rows.len());
    assert forall|y: int| 0 <= y < a.rows.len() implies a.rows[y] =~= b.rows[y] by {
        assert(grid.rows[y].len() == grid.cols);
        assert forall|x: int| 0 <= x < a.rows[y].len() implies a.rows[y][x] == b.rows[y][x] by {
            if more.contains((x, y)) {
                let i = choose|i: int| 0 <= i < more.len() && more[i] == (x, y);
                if i < n {
                    assert(fewer[i] == (x, y));
                }
            }
            if fewer.contains((x, y)) {
                let i = choose|i: int| 0 <= i < fewer.len() && fewer[i] == (x, y);
                assert(more[i] == (x, y));
            }
            if cells[n] == (x, y) {
                assert(more[n] == (x, y));
            }
        }
    }
    assert(a.rows =~= b.rows);
    let z = grid.locked(cells.take(0), tag);
    assert forall|y: int| 0 <= y < z.rows.len() implies z.rows[y] =~= grid.rows[y] by {
    }
    assert(z.rows =~= grid.rows);
}

/// The board. Its cells are reached only through bounds-checked methods.
pub struct Board {
    cells: Vec<Vec<Cell>>,
    width: usize,
    height: usize,
}

impl View for Board {
    type V = Grid;

    closed spec fn view(&self) -> Grid {
        Grid { cols: self.width as nat, rows: Seq::new(self.cells@.len(), |y: int| self.cells@[y]@) }
    }
}

impl Board {
    /// The board's invariant: the stored sides are those of the stored rows,
    /// and its model is well formed.
    pub closed spec fn wf(&self) -> bool {
        &&& self.cells@.len() == self.height
        &&& self@.wf()
    }

    /// A well-formed board has a well-formed model.
    pub proof fn lemma_wf(&self)
        requires
            self.wf(),
        ensures
            self@.wf(),
    {
    }

    /// An empty board of the given width and height.
    pub fn new(width: usize, height: usize) -> (board: Board)
        requires
            width <= MAX_SIDE,
            height <= MAX_SIDE,
        ensures
            board.wf(),
            board@.cols == width,
            board@.rows.len() == height,
            forall|y: int| 0 <= y < height ==> (#[trigger] board@.rows[y]) == blank_row(width as nat),
    {
        let mut cells: Vec<Vec<Cell>> = Vec::new();
        let mut y: usize = 0;
        while y < height
            invariant
                y <= height,
                cells@.len() == y,
                forall|r: int| 0 <= r < y ==> (#[trigger] cells@[r])@ == blank_row(width as nat),
            decreases height - y,
        {
            let mut row: Vec<Cell> = Vec::new();
            let mut x: usize = 0;
            while x < width
                invariant
                    x <= width,
                    row@.len() == x,
                    forall|c: int| 0 <= c < x ==> (#[trigger] row@[c]) == Cell::Empty,
                decreases width - x,
            {
                row.push(Cell::Empty);
                x += 1;
            }
            assert(row@ =~= blank_row(width as nat));
            cells.push(row);
            y += 1;
        }
        Board { cells, width, height }
    }

    /// The number of columns.
    pub fn width(&self) -> (w: usize)
        ensures
            w == self@.cols,
    {
        self.width
    }

    /// The number of rows.
    pub fn height(&self) -> (h: usize)
        requires
            self.wf(),
        ensures
            h == self@.rows.len(),
    {
        self.height
    }

    /// The cell at `(x, y)`, or `None` where the board has no such cell.
    pub fn get(&self, x: i32, y: i32) -> (cell: Option<Cell>)
        requires
            self.wf(),
        ensures
            cell == if self@.contains(x as int, y as int) {
                Some(self@.rows[y as int][x as int])
            } else {
                None::<Cell>
            },
    {
        if x < 0 || y < 0 || x as usize >= self.width || y as usize >= self.height {
            None
        } else {
            assert(self@.rows[y as int] == self.cells@[y as int]@);
            Some(self.cells[y as usize][x as usize])
        }
    }

    /// Whether `(x, y)` is a cell of the board and empty.
    pub fn is_empty(&self, x: i32, y: i32) -> (vacant: bool)
        requires
            self.wf(),
        ensures
            vacant == self@.vacant(x as int, y as int),
    {
        match self.get(x, y) {
            Some(Cell::Empty) => true,
            _ => false,
        }
    }

    /// Whether `(x, y)` is a cell of the board and occupied.
    pub fn is_occupied(&self, x: i32, y: i32) -> (taken: bool)
        requires
            self.wf(),
        ensures
            taken == self@.occupied(x as int, y as int),
    {
        match self.get(x, y) {
            Some(Cell::Occupied(_)) => true,
            _ => false,
        }
    }

    /// Writes `cell` at `(x, y)`. Leaves the board as it is where it has no
    /// such cell.
    pub fn put(&mut self, x: i32, y: i32, cell: Cell)
        requires
            old(self).wf(),
        ensures
            final(self).wf(),
            final(self)@ == old(self)@.with(x as int, y as int, cell),
    {
        if x < 0 || y < 0 || x as usize >= self.width || y as usize >= self.height {
            return;
        }
        assert(self@.rows[y as int] == self.cells@[y as int]@);
        self.cells[y as usize][x as usize] = cell;
        assert(self@.rows =~= old(self)@.with(x as int, y as int, cell).rows);
        assert forall|r: int| 0 <= r < self@.rows.len() implies (#[trigger] self@.rows[r]).len()
            == self@.cols by {
            assert(old(self)@.rows[r].len() == old(self)@.cols);
        }
    }

    /// Marks `(x, y)` as occupied by a block of the given shape. Leaves the
    /// board as it is where it has no such cell.
    pub fn set(&mut self, x: i32, y: i32, tag: Shape)
        requires
            old(self).wf(),
        ensures
            final(self).wf(),
            final(self)@ == old(self)@.with(x as int, y as int, Cell::Occupied(tag)),
    {
        self.put(x, y, Cell::Occupied(tag));
    }

    /// Empties `(x, y)`. Leaves the board as it is where it has no such cell.
    pub fn clear(&mut self, x: i32, y: i32)
        requires
            old(self).wf(),
        ensures
            final(self).wf(),
            final(self)@ == old(self)@.with(x as int, y as int, Cell::Empty),
    {
        self.put(x, y, Cell::Empty);
    }

    /// Whether the board has a row `y` whose cells are all occupied.
    pub fn row_fully_occupied(&self, y: usize) -> (full: bool)
        requires
            self.wf(),
        ensures
            full == (y < self@.rows.len() && row_full(self@.rows[y as int])),
    {
        if y >= self.height {
            return false;
        }
        assert(self@.rows[y as int] == self.cells@[y as int]@);
        let mut x: usize = 0;
        while x < self.width
            invariant
                x <= self.width,
                y < self.cells@.len(),
                self.cells@[y as int]@.len() == self.width,
                forall|c: int| 0 <= c < x ==> self.cells@[y as int]@[c] != Cell::Empty,
            decreases self.width - x,
        {
            match self.cells[y][x] {
                Cell::Empty => {
                    return false;
                },
                Cell::Occupied(_) => {},
            }
            x += 1;
        }
        true
    }

    /// Whether the board has a row `y` whose cells are all empty.
    pub fn row_empty(&self, y: usize) -> (blank: bool)
        requires
            self.wf(),
        ensures
            blank == (y < self@.rows.len() && row_blank(self@.rows[y as int])),
    {
        if y >= self.height {
            return false;
        }
        assert(self@.rows[y as int] == self.cells@[y as int]@);
        let mut x: usize = 0;
        while x < self.width
            invariant
                x <= self.width,
                y < self.cells@.len(),
                self.cells@[y as int]@.len() == self.width,
                forall|c: int| 0 <= c < x ==> self.cells@[y as int]@[c] == Cell::Empty,
            decreases self.width - x,
        {
            match self.cells[y][x] {
                Cell::Empty => {},
                Cell::Occupied(_) => {
                    return false;
                },
            }
            x += 1;
        }
        true
    }

    /// Empties row `y`. Leaves the board as it is where it has no such row.
    pub fn clear_row(&mut self, y: usize)
        requires
            old(self).wf(),
        ensures
            final(self).wf(),
            final(self)@ == old(self)@.row_cleared(y as int),
    {
        if y >= self.height {
            return;
        }
        assert(self@.rows[y as int] == self.cells@[y as int]@);
        let mut x: usize = 0;
        while x < self.width
            invariant
                x <= self.width,
                self.width == old(self).width,
                self.height == old(self).height,
                y < self.cells@.len(),
                self.cells@.len() == old(self).cells@.len(),
                self.cells@[y as int]@.len() == self.width,
                forall|r: int| 0 <= r < self.cells@.len() && r != y ==> self.cells@[r] == old(
                    self,
                ).cells@[r],
                forall|c: int| 0 <= c < x ==> self.cells@[y as int]@[c] == Cell::Empty,
            decreases self.width - x,
        {
            self.cells[y][x] = Cell::Empty;
            x += 1;
        }
        assert(self.cells@[y as int]@ =~= blank_row(self.width as nat));
        assert(self@.rows =~= old(self)@.row_cleared(y as int).rows);
        assert forall|r: int| 0 <= r < self@.rows.len() implies (#[trigger] self@.rows[r]).len()
            == self@.cols by {
            assert(old(self)@.rows[r].len() == old(self)@.cols);
        }
    }

    /// Moves row `y - 1` into row `y` and empties row `y - 1`. Leaves the
    /// board as it is where it does not have both rows.
    pub fn shift_row_down(&mut self, y: usize)
        requires
            old(self).wf(),
        ensures
            final(self).wf(),
            final(self)@ == old(self)@.row_shifted_down(y as int),
    {
        if y == 0 || y >= self.height {
            return;
        }
        assert(self@.rows[y as int] == self.cells@[y as int]@);
        let ghost up: int = y - 1;
        assert(self@.rows[up] == self.cells@[up]@);
        let mut x: usize = 0;
        while x < self.width
            invariant
                x <= self.width,
                up == y - 1,
                self.width == old(self).width,
                self.height == old(self).height,
                0 < y < self.cells@.len(),
                self.cells@.len() == old(self).cells@.len(),
                self.cells@[y as int]@.len() == self.width,
                self.cells@[up]@.len() == self.width,
                old(self).cells@[up]@.len() == self.width,
                forall|r: int|
                    0 <= r < self.cells@.len() && r != y && r != y - 1 ==> self.cells@[r] == old(
                        self,
                    ).cells@[r],
                forall|c: int|
                    0 <= c < x ==> self.cells@[y as int]@[c] == old(self).cells@[up]@[c],
                forall|c: int| 0 <= c < x ==> self.cells@[up]@[c] == Cell::Empty,
                forall|c: int|
                    x <= c < self.width ==> self.cells@[up]@[c] == old(self).cells@[up]@[c],
            decreases self.width - x,
        {
            let above: Cell = self.cells[y - 1][x];
            self.cells[y][x] = above;
            self.cells[y - 1][x] = Cell::Empty;
            x += 1;
        }
        assert(self.cells@[up]@ =~= blank_row(self.width as nat));
        assert(self.cells@[y as int]@ =~= old(self).cells@[up]@);
        assert(self@.rows =~= old(self)@.row_shifted_down(y as int).rows);
        assert forall|r: int| 0 <= r < self@.rows.len() implies (#[trigger] self@.rows[r]).len()
            == self@.cols by {
            assert(old(self)@.rows[r].len() == old(self)@.cols);
            assert(old(self)@.rows[y - 1].len() == old(self)@.cols);
        }
    }

    /// Collapses row `y`: empties it if it is the top row, else moves the row
    /// above into it. Leaves the board as it is where it has no such row.
    pub fn collapse_row(&mut self, y: usize)
        requires
            old(self).wf(),
        ensures
            final(self).wf(),
            final(self)@ == old(self)@.collapsed(y as int),
    {
        if y == 0 {
            self.clear_row(0);
        } else {
            self.shift_row_down(y);
        }
    }
}

} // verus!
