//! The seven tetrominoes.

use vstd::prelude::*;
use rand::Rng;
use crate::geometry::Point;

verus! {

/// The seven shapes. A shape is also the tag that a locked block keeps.
#[derive(Clone, Copy, Debug, PartialEq, Eq, Structural)]
pub enum Shape {
    I,
    O,
    T,
    J,
    L,
    S,
    Z,
}

/// The index, among a piece's four blocks, of the block it turns about.
pub const PIVOT: usize = 1;

/// A piece: its shape and the positions of its four blocks.
#[derive(Clone, Copy, Debug, PartialEq, Eq)]
pub struct Tetromino {
    pub shape: Shape,
    pub blocks: [Point; 4],
}

/// The mathematical model of a piece: its shape and the positions of its
/// blocks.
pub struct PieceView {
    pub shape: Shape,
    pub cells: Seq<(int, int)>,
}

impl View for Tetromino {
    type V = PieceView;

    open spec fn view(&self) -> PieceView {
        PieceView { shape: self.shape, cells: self.cells() }
    }
}

impl Shape {
    /// The four blocks of the shape, relative to its own origin.
    pub open spec fn offsets(self) -> Seq<(int, int)> {
        match self {
            Shape::I => seq![(0int, 0int), (0int, 1int), (0int, 2int), (0int, 3int)],
            Shape::O => seq![(0int, 0int), (0int, 1int), (1int, 0int), (1int, 1int)],
            Shape::T => seq![(0int, 0int), (0int, 1int), (0int, 2int), (1int, 1int)],
            Shape::J => seq![(0int, 1int), (1int, 1int), (2int, 0int), (2int, 1int)],
            Shape::L => seq![(0int, 0int), (1int, 0int), (2int, 0int), (2int, 1int)],
            Shape::S => seq![(0int, 1int), (0int, 2int), (1int, 0int), (1int, 1int)],
            Shape::Z => seq![(0int, 0int), (0int, 1int), (1int, 1int), (1int, 2int)],
        }
    }

    /// The model of the piece of this shape, at the shape's own origin.
    pub open spec fn fresh(self) -> PieceView {
        PieceView { shape: self, cells: self.offsets() }
    }

    /// The shape that a draw `k` selects: `0` to `5` select `I`, `O`, `T`,
    /// `J`, `L`, `S`, and every other number selects `Z`.
    pub open spec fn selected(k: int) -> Shape {
        if k == 0 {
            Shape::I
        } else if k == 1 {
            Shape::O
        } else if k == 2 {
            Shape::T
        } else if k == 3 {
            Shape::J
        } else if k == 4 {
            Shape::L
        } else if k == 5 {
            Shape::S
        } else {
            Shape::Z
        }
    }

    /// The shape that a draw `k` selects.
    pub fn from_index(k: u8) -> (shape: Shape)
        ensures
            shape == Shape::selected(k as int),
    {
        match k {
            0 => Shape::I,
            1 => Shape::O,
            2 => Shape::T,
            3 => Shape::J,
            4 => Shape::L,
            5 => Shape::S,
            _ => Shape::Z,
        }
    }
}

impl Tetromino {
    /// The positions of the four blocks, as pairs of mathematical integers.
    pub open spec fn cells(self) -> Seq<(int, int)> {
        Seq::new(4, |i: int| self.blocks@[i].pos())
    }

    /// Two pieces with the same model are the same piece.
    pub proof fn lemma_view_decides(self, other: Tetromino)
        requires
            self@ == other@,
        ensures
            self == other,
    {
        assert forall|i: int| 0 <= i < 4 implies self.blocks[i] == other.blocks[i] by {
            assert(self.cells()[i] == other.cells()[i]);
            assert(self.blocks@[i].pos() == other.blocks@[i].pos());
        }
        assert(self.blocks =~= other.blocks);
    }

    /// The piece of the given shape, at the shape's own origin.
    pub fn new(shape: Shape) -> (t: Tetromino)
        ensures
            t@ == shape.fresh(),
    {
        match shape {
            Shape::I => Tetromino::i(),
            Shape::O => Tetromino::o(),
            Shape::T => Tetromino::t(),
            Shape::J => Tetromino::j(),
            Shape::L => Tetromino::l(),
            Shape::S => Tetromino::s(),
            Shape::Z => Tetromino::z(),
        }
    }

    /// A piece drawn at random from the seven, each equally likely: one of
    /// the seven pieces, at its shape's own origin.
    pub fn random() -> (t: Tetromino)
        ensures
            t@ == t.shape.fresh(),
    {
        let k: u8 = uniform_below(7);
        Tetromino::new(Shape::from_index(k))
    }

    /// The I piece: four blocks in a column.
    pub fn i() -> (t: Tetromino)
        ensures
            t.shape == Shape::I,
            t.cells() == Shape::I.offsets(),
    {
        let t = Tetromino {
            shape: Shape::I,
            blocks: [
                Point { x: 0, y: 0 },
                Point { x: 0, y: 1 },
                Point { x: 0, y: 2 },
                Point { x: 0, y: 3 },
            ],
        };
        assert(t.cells() =~= Shape::I.offsets());
        t
    }

    /// The O piece: a square.
    pub fn o() -> (t: Tetromino)
        ensures
            t.shape == Shape::O,
            t.cells() == Shape::O.offsets(),
    {
        let t = Tetromino {
            shape: Shape::O,
            blocks: [
                Point { x: 0, y: 0 },
                Point { x: 0, y: 1 },
                Point { x: 1, y: 0 },
                Point { x: 1, y: 1 },
            ],
        };
        assert(t.cells() =~= Shape::O.offsets());
        t
    }

    /// The T piece.
    pub fn t() -> (t: Tetromino)
        ensures
            t.shape == Shape::T,
            t.cells() == Shape::T.offsets(),
    {
        let t = Tetromino {
            shape: Shape::T,
            blocks: [
                Point { x: 0, y: 0 },
                Point { x: 0, y: 1 },
                Point { x: 0, y: 2 },
                Point { x: 1, y: 1 },
            ],
        };
        assert(t.cells() =~= Shape::T.offsets());
        t
    }

    /// The J piece.
    pub fn j() -> (t: Tetromino)
        ensures
            t.shape == Shape::J,
            t.cells() == Shape::J.offsets(),
    {
        let t = Tetromino {
            shape: Shape::J,
            blocks: [
                Point { x: 0, y: 1 },
                Point { x: 1, y: 1 },
                Point { x: 2, y: 0 },
                Point { x: 2, y: 1 },
            ],
        };
        assert(t.cells() =~= Shape::J.offsets());
        t
    }

    /// The L piece.
    pub fn l() -> (t: Tetromino)
        ensures
            t.shape == Shape::L,
            t.cells() == Shape::L.offsets(),
    {
        let t = Tetromino {
            shape: Shape::L,
            blocks: [
                Point { x: 0, y: 0 },
                Point { x: 1, y: 0 },
                Point { x: 2, y: 0 },
                Point { x: 2, y: 1 },
            ],
        };
        assert(t.cells() =~= Shape::L.offsets());
        t
    }

    /// The S piece.
    pub fn s() -> (t: Tetromino)
        ensures
            t.shape == Shape::S,
            t.cells() == Shape::S.offsets(),
    {
        let t = Tetromino {
            shape: Shape::S,
            blocks: [
                Point { x: 0, y: 1 },
                Point { x: 0, y: 2 },
                Point { x: 1, y: 0 },
                Point { x: 1, y: 1 },
            ],
        };
        assert(t.cells() =~= Shape::S.offsets());
        t
    }

    /// The Z piece.
    pub fn z() -> (t: Tetromino)
        ensures
            t.shape == Shape::Z,
            t.cells() == Shape::Z.offsets(),
    {
        let t = Tetromino {
            shape: Shape::Z,
            blocks: [
                Point { x: 0, y: 0 },
                Point { x: 0, y: 1 },
                Point { x: 1, y: 1 },
                Point { x: 1, y: 2 },
            ],
        };
        assert(t.cells() =~= Shape::Z.offsets());
        t
    }
}

/// Calls `rand::thread_rng()` and `Rng::gen_range` on the range from `0` up
/// to, not including, `n`. Trusted: the number that comes back lies in that
/// range. Nothing is claimed about which number it is.
#[verifier::external_body]
fn uniform_below(n: u8) -> (k: u8)
    requires
        n > 0,
    ensures
        k < n,
{
    rand::thread_rng().gen_range(0..n)
}

} // verus!
