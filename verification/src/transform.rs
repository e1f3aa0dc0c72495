//! Moves of a piece on a board. A move is accepted as a whole or not at all:
//! all four blocks must arrive on empty cells of the board.

use vstd::prelude::*;
use crate::board::{Board, Cell, Grid};
use crate::geometry::{lemma_four_turns, shifted, turned, Point};
use crate::piece::{Tetromino, PIVOT};

verus! {

/// Whether every one of `cells` is a cell of the grid and empty.
pub open spec fn fits(grid: Grid, cells: Seq<(int, int)>) -> bool {
    forall|i: int| 0 <= i < cells.len() ==> grid.vacant((#[trigger] cells[i]).0, cells[i].1)
}

/// Whether every one of `cells` is a cell of the grid.
pub open spec fn inside(grid: Grid, cells: Seq<(int, int)>) -> bool {
    forall|i: int| 0 <= i < cells.len() ==> grid.contains((#[trigger] cells[i]).0, cells[i].1)
}

/// The positions `cells`, each moved by `(dx, dy)`.
pub open spec fn translated(cells: Seq<(int, int)>, dx: int, dy: int) -> Seq<(int, int)> {
    Seq::new(cells.len(), |i: int| shifted(cells[i], dx, dy))
}

/// The positions `cells`, each turned a quarter counter-clockwise about the
/// pivot block.
pub open spec fn quarter_turned(cells: Seq<(int, int)>) -> Seq<(int, int)>
    recommends
        cells.len() > PIVOT,
{
    Seq::new(cells.len(), |i: int| turned(cells[i], cells[PIVOT as int]))
}

/// Where a piece stands after a move from `from` to `to` was tried on the
/// grid: at `to` if the move is accepted, else still at `from`.
pub open spec fn settled(grid: Grid, from: Seq<(int, int)>, to: Seq<(int, int)>) -> Seq<
    (int, int),
> {
    if fits(grid, to) {
        to
    } else {
        from
    }
}

/// Moves the piece by `(dx, dy)` if all four blocks arrive on empty cells of
/// the board, and says whether it did. A rejected piece is left as it was.
pub fn translate(piece: &mut Tetromino, board: &Board, dx: i16, dy: i16) -> (accepted: bool)
    requires
        board.wf(),
    ensures
        accepted == fits(board@, translated(old(piece).cells(), dx as int, dy as int)),
        final(piece).shape == old(piece).shape,
        final(piece).cells() == settled(
            board@,
            old(piece).cells(),
            translated(old(piece).cells(), dx as int, dy as int),
        ),
        accepted ==> fits(board@, final(piece).cells()),
        !accepted ==> *final(piece) == *old(piece),
{
    proof {
        board.lemma_wf();
    }
    let ghost target = translated(piece.cells(), dx as int, dy as int);
    let mut i: usize = 0;
    while i < 4
        invariant
            i <= 4,
            board.wf(),
            *piece == *old(piece),
            target == translated(piece.cells(), dx as int, dy as int),
            forall|j: int| 0 <= j < i ==> board@.vacant((#[trigger] target[j]).0, target[j].1),
        decreases 4 - i,
    {
        let p: Point = piece.blocks[i];
        let nx: i32 = p.x as i32 + dx as i32;
        let ny: i32 = p.y as i32 + dy as i32;
        assert(target[i as int] == (nx as int, ny as int));
        if !board.is_empty(nx, ny) {
            return false;
        }
        i += 1;
    }
    assert(fits(board@, target));
    let offset = Point { x: dx, y: dy };
    let mut i: usize = 0;
    while i < 4
        invariant
            i <= 4,
            board@.wf(),
            offset == (Point { x: dx, y: dy }),
            piece.shape == old(piece).shape,
            target == translated(old(piece).cells(), dx as int, dy as int),
            fits(board@, target),
            forall|j: int| 0 <= j < i ==> (#[trigger] piece.blocks@[j]).pos() == target[j],
            forall|j: int| i <= j < 4 ==> (#[trigger] piece.blocks@[j]) == old(piece).blocks@[j],
        decreases 4 - i,
    {
        let mut p: Point = piece.blocks[i];
        assert(target[i as int] == (p.x + dx, p.y + dy));
        assert(board@.vacant(target[i as int].0, target[i as int].1));
        p.add_assign(&offset);
        piece.blocks[i] = p;
        i += 1;
    }
    assert(piece.cells() =~= target);
    true
}

/// Moves the piece one cell to the left, if that is accepted.
pub fn left(piece: &mut Tetromino, board: &Board) -> (accepted: bool)
    requires
        board.wf(),
    ensures
        accepted == fits(board@, translated(old(piece).cells(), -1, 0)),
        final(piece).shape == old(piece).shape,
        final(piece).cells() == settled(
            board@,
            old(piece).cells(),
            translated(old(piece).cells(), -1, 0),
        ),
        accepted ==> fits(board@, final(piece).cells()),
        !accepted ==> *final(piece) == *old(piece),
{
    translate(piece, board, -1, 0)
}

/// Moves the piece one cell to the right, if that is accepted.
pub fn right(piece: &mut Tetromino, board: &Board) -> (accepted: bool)
    requires
        board.wf(),
    ensures
        accepted == fits(board@, translated(old(piece).cells(), 1, 0)),
        final(piece).shape == old(piece).shape,
        final(piece).cells() == settled(
            board@,
            old(piece).cells(),
            translated(old(piece).cells(), 1, 0),
        ),
        accepted ==> fits(board@, final(piece).cells()),
        !accepted ==> *final(piece) == *old(piece),
{
    translate(piece, board, 1, 0)
}

/// Moves the piece one cell down, if that is accepted.
pub fn down(piece: &mut Tetromino, board: &Board) -> (accepted: bool)
    requires
        board.wf(),
    ensures
        accepted == fits(board@, translated(old(piece).cells(), 0, 1)),
        final(piece).shape == old(piece).shape,
        final(piece).cells() == settled(
            board@,
            old(piece).cells(),
            translated(old(piece).cells(), 0, 1),
        ),
        accepted ==> fits(board@, final(piece).cells()),
        !accepted ==> *final(piece) == *old(piece),
{
    translate(piece, board, 0, 1)
}

/// Turns the piece a quarter counter-clockwise about its pivot block if all
/// four blocks arrive on empty cells of the board, and says whether it did.
/// A rejected piece is left as it was; no other place is tried.
pub fn rotate_counter_clockwise(piece: &mut Tetromino, board: &Board) -> (accepted: bool)
    requires
        board.wf(),
    ensures
        accepted == fits(board@, quarter_turned(old(piece).cells())),
        final(piece).shape == old(piece).shape,
        final(piece).cells() == settled(
            board@,
            old(piece).cells(),
            quarter_turned(old(piece).cells()),
        ),
        accepted ==> fits(board@, final(piece).cells()),
        !accepted ==> *final(piece) == *old(piece),
{
    proof {
        board.lemma_wf();
    }
    let ghost target = quarter_turned(piece.cells());
    let pivot: Point = piece.blocks[PIVOT];
    let cx: i32 = pivot.x as i32;
    let cy: i32 = pivot.y as i32;
    assert(piece.cells()[PIVOT as int] == (cx as int, cy as int));
    let mut i: usize = 0;
    while i < 4
        invariant
            i <= 4,
            board.wf(),
            *piece == *old(piece),
            piece.cells()[PIVOT as int] == (cx as int, cy as int),
            target == quarter_turned(piece.cells()),
            forall|j: int| 0 <= j < i ==> board@.vacant((#[trigger] target[j]).0, target[j].1),
        decreases 4 - i,
    {
        let p: Point = piece.blocks[i];
        let nx: i32 = cx - (p.y as i32 - cy);
        let ny: i32 = cy + (p.x as i32 - cx);
        assert(target[i as int] == (nx as int, ny as int));
        if !board.is_empty(nx, ny) {
            return false;
        }
        i += 1;
    }
    assert(fits(board@, target));
    let mut i: usize = 0;
    while i < 4
        invariant
            i <= 4,
            board@.wf(),
            piece.shape == old(piece).shape,
            old(piece).cells()[PIVOT as int] == (cx as int, cy as int),
            target == quarter_turned(old(piece).cells()),
            fits(board@, target),
            forall|j: int| 0 <= j < i ==> (#[trigger] piece.blocks@[j]).pos() == target[j],
            forall|j: int| i <= j < 4 ==> (#[trigger] piece.blocks@[j]) == old(piece).blocks@[j],
        decreases 4 - i,
    {
        let p: Point = piece.blocks[i];
        let nx: i32 = cx - (p.y as i32 - cy);
        let ny: i32 = cy + (p.x as i32 - cx);
        assert(target[i as int] == (nx as int, ny as int));
        assert(board@.vacant(target[i as int].0, target[i as int].1));
        piece.blocks[i] = Point { x: nx as i16, y: ny as i16 };
        i += 1;
    }
    assert(piece.cells() =~= target);
    true
}

/// Every block of a piece that fits stands on a cell of the grid that is
/// empty: `0 <= x < width`, `0 <= y < height`, and nothing is locked there.
pub proof fn law_fitting_piece_is_inside(grid: Grid, cells: Seq<(int, int)>, i: int)
    requires
        fits(grid, cells),
        0 <= i < cells.len(),
    ensures
        0 <= cells[i].0 < grid.cols,
        0 <= cells[i].1 < grid.rows.len(),
        grid.rows[cells[i].1][cells[i].0] == Cell::Empty,
{
}

/// Four quarter turns in a row bring four blocks back to where they were.
pub proof fn law_four_quarter_turns(cells: Seq<(int, int)>)
    requires
        cells.len() == 4,
    ensures
        quarter_turned(quarter_turned(quarter_turned(quarter_turned(cells)))) == cells,
{
    let pivot = cells[PIVOT as int];
    let c1 = quarter_turned(cells);
    let c2 = quarter_turned(c1);
    let c3 = quarter_turned(c2);
    let c4 = quarter_turned(c3);
    assert(c1[PIVOT as int] == pivot);
    assert(c2[PIVOT as int] == pivot);
    assert(c3[PIVOT as int] == pivot);
    assert forall|i: int| 0 <= i < 4 implies c4[i] == cells[i] by {
        lemma_four_turns(cells[i], pivot);
        assert(c1[i] == turned(cells[i], pivot));
        assert(c2[i] == turned(c1[i], pivot));
        assert(c3[i] == turned(c2[i], pivot));
        assert(c4[i] == turned(c3[i], pivot));
    }
    assert(c4 =~= cells);
}

/// A piece that is turned four times on a grid, each turn accepted, stands
/// where it stood at first.
pub proof fn law_rotation_cycle(grid: Grid, cells: Seq<(int, int)>)
    requires
        cells.len() == 4,
        fits(grid, quarter_turned(cells)),
        fits(grid, quarter_turned(quarter_turned(cells))),
        fits(grid, quarter_turned(quarter_turned(quarter_turned(cells)))),
        fits(grid, quarter_turned(quarter_turned(quarter_turned(quarter_turned(cells))))),
    ensures
        ({
            let c1 = settled(grid, cells, quarter_turned(cells));
            let c2 = settled(grid, c1, quarter_turned(c1));
            let c3 = settled(grid, c2, quarter_turned(c2));
            let c4 = settled(grid, c3, quarter_turned(c3));
            c4 == cells
        }),
{
    law_four_quarter_turns(cells);
}

/// A piece that was turned four times, each turn accepted, is the piece it
/// was at first, block for block.
pub proof fn law_four_turns_return_the_piece(start: Tetromino, end: Tetromino)
    requires
        end.shape == start.shape,
        end.cells() == quarter_turned(
            quarter_turned(quarter_turned(quarter_turned(start.cells()))),
        ),
    ensures
        end == start,
{
    law_four_quarter_turns(start.cells());
    end.lemma_view_decides(start);
}

} // verus!
