//! Positions on the grid and the quarter-turn formula.

use vstd::prelude::*;

verus! {

/// A position on the grid, or an offset between two positions: `x` grows to
/// the right, `y` grows downwards.
#[derive(Clone, Copy, Debug, PartialEq, Eq, Structural)]
pub struct Point {
    pub x: i16,
    pub y: i16,
}

/// The position `p` moved by `(dx, dy)`.
pub open spec fn shifted(p: (int, int), dx: int, dy: int) -> (int, int) {
    (p.0 + dx, p.1 + dy)
}

/// The position `p` turned a quarter counter-clockwise about `pivot`: the
/// offset `(a, b)` from the pivot becomes `(-b, a)`.
pub open spec fn turned(p: (int, int), pivot: (int, int)) -> (int, int) {
    (pivot.0 - (p.1 - pivot.1), pivot.1 + (p.0 - pivot.0))
}

impl Point {
    /// This position as a pair of mathematical integers.
    pub open spec fn pos(self) -> (int, int) {
        (self.x as int, self.y as int)
    }

    /// Adds `other` to this position, coordinate by coordinate.
    pub fn add_assign(&mut self, other: &Point)
        requires
            i16::MIN <= old(self).x + other.x <= i16::MAX,
            i16::MIN <= old(self).y + other.y <= i16::MAX,
        ensures
            final(self).pos() == shifted(old(self).pos(), other.x as int, other.y as int),
    {
        *self = Point { x: self.x + other.x, y: self.y + other.y };
    }
}

/// Four quarter turns about the same pivot bring a position back.
pub proof fn lemma_four_turns(p: (int, int), pivot: (int, int))
    ensures
        turned(turned(turned(turned(p, pivot), pivot), pivot), pivot) == p,
{
}

} // verus!
