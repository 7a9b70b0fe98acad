//! Points and axis-aligned rectangles in buffer pixel space.

use vstd::prelude::*;
use vstd::std_specs::convert::FromSpecImpl;

verus! {

/// A pixel coordinate: column `x`, row `y`.
#[derive(Clone, Copy, Debug, PartialEq, Eq, Structural)]
pub struct Position {
    pub x: usize,
    pub y: usize,
}

impl Position {
    /// The point in column `x` of row `y`.
    pub fn new(x: usize, y: usize) -> (p: Position)
        ensures
            p == (Position { x, y }),
    {
        Position { x, y }
    }
}

impl From<[usize; 2]> for Position {
    fn from(value: [usize; 2]) -> (p: Position) {
        Position { x: value[0], y: value[1] }
    }
}

impl FromSpecImpl<[usize; 2]> for Position {
    open spec fn obeys_from_spec() -> bool {
        true
    }

    open spec fn from_spec(value: [usize; 2]) -> Position {
        Position { x: value[0], y: value[1] }
    }
}

impl From<&[usize; 2]> for Position {
    fn from(value: &[usize; 2]) -> (p: Position) {
        Position { x: value[0], y: value[1] }
    }
}

impl FromSpecImpl<&[usize; 2]> for Position {
    open spec fn obeys_from_spec() -> bool {
        true
    }

    open spec fn from_spec(value: &[usize; 2]) -> Position {
        Position { x: value[0], y: value[1] }
    }
}

impl From<(usize, usize)> for Position {
    fn from(value: (usize, usize)) -> (p: Position) {
        Position { x: value.0, y: value.1 }
    }
}

impl FromSpecImpl<(usize, usize)> for Position {
    open spec fn obeys_from_spec() -> bool {
        true
    }

    open spec fn from_spec(value: (usize, usize)) -> Position {
        Position { x: value.0, y: value.1 }
    }
}

/// A rectangle given by its edges. All four edges belong to it: it covers
/// the columns `left..=right` of the rows `top..=bottom`.
#[derive(Clone, Copy, Debug, PartialEq, Eq, Structural)]
pub struct Dimensions {
    pub left: usize,
    pub top: usize,
    pub right: usize,
    pub bottom: usize,
}

impl Dimensions {
    /// The rectangle with the given edges. Any four values are accepted;
    /// whether they make a rectangle that can be drawn is `is_well_formed`.
    pub fn new(left: usize, top: usize, right: usize, bottom: usize) -> (d: Dimensions)
        ensures
            d == (Dimensions { left, top, right, bottom }),
    {
        Dimensions { left, top, right, bottom }
    }

    /// The left edge lies left of the right one, the top edge above the
    /// bottom one.
    pub open spec fn well_formed(self) -> bool {
        self.left < self.right && self.top < self.bottom
    }

    /// The point in column `x` of row `y` lies in the rectangle, edges
    /// included.
    pub open spec fn covers(self, x: int, y: int) -> bool {
        self.left <= x <= self.right && self.top <= y <= self.bottom
    }

    /// Whether the rectangle is well formed.
    pub fn is_well_formed(&self) -> (ok: bool)
        ensures
            ok == self.well_formed(),
    {
        self.left < self.right && self.top < self.bottom
    }

    /// Whether `pos` lies in the rectangle, edges included.
    pub fn contains(&self, pos: Position) -> (inside: bool)
        ensures
            inside == self.covers(pos.x as int, pos.y as int),
    {
        pos.x >= self.left && pos.x <= self.right && pos.y <= self.bottom && pos.y >= self.top
    }
}

} // verus!
