//! Board geometry: dimensions, positions, headings, and the boundary
//! predicate that gates every head advance.

use vstd::prelude::*;

verus! {

/// Integer grid coordinates of one cell. Valid range is board-dependent and
/// checked by [`Board::validate`], not by the position itself.
#[derive(Clone, Copy, PartialEq, Eq, Structural, Debug)]
pub struct Position {
    pub x: i32,
    pub y: i32,
}

/// The snake's heading. Diagonal movement does not exist.
#[derive(Clone, Copy, PartialEq, Eq, Structural, Debug)]
pub enum Direction {
    Up,
    Down,
    Left,
    Right,
}

impl Position {
    /// The cell one step from `self` in direction `d`:
    /// Up is (0, +1), Down is (0, -1), Left is (-1, 0), Right is (+1, 0).
    pub open spec fn spec_next(self, d: Direction) -> Position {
        match d {
            Direction::Up => Position { x: self.x, y: (self.y + 1) as i32 },
            Direction::Down => Position { x: self.x, y: (self.y - 1) as i32 },
            Direction::Left => Position { x: (self.x - 1) as i32, y: self.y },
            Direction::Right => Position { x: (self.x + 1) as i32, y: self.y },
        }
    }

    /// Computes the cell the head would move into next.
    pub fn calc_next(&self, direction: Direction) -> (next: Position)
        requires
            i32::MIN < self.x < i32::MAX,
            i32::MIN < self.y < i32::MAX,
        ensures
            next == self.spec_next(direction),
    {
        match direction {
            Direction::Up => Position { x: self.x, y: self.y + 1 },
            Direction::Down => Position { x: self.x, y: self.y - 1 },
            Direction::Left => Position { x: self.x - 1, y: self.y },
            Direction::Right => Position { x: self.x + 1, y: self.y },
        }
    }
}

/// Pure board geometry: cell counts in each dimension. Created once at
/// startup and never mutated.
#[derive(Clone, Copy, PartialEq, Eq, Structural, Debug)]
pub struct Board {
    pub width: i32,
    pub height: i32,
}

impl Board {
    /// A board has at least one cell in each dimension.
    pub open spec fn wf(self) -> bool {
        self.width > 0 && self.height > 0
    }

    /// True iff `p` lies on the board.
    pub open spec fn contains(self, p: Position) -> bool {
        0 <= p.x < self.width && 0 <= p.y < self.height
    }

    /// Builds a board, refusing zero or negative dimensions.
    pub fn new(width: i32, height: i32) -> (r: Option<Board>)
        ensures
            r is Some <==> width > 0 && height > 0,
            r is Some ==> r->0 == (Board { width, height }) && r->0.wf(),
    {
        if width > 0 && height > 0 {
            Some(Board { width, height })
        } else {
            None
        }
    }

    /// Boundary gate: true iff `position` is in `[0, width) x [0, height)`.
    pub fn validate(&self, position: Position) -> (r: bool)
        ensures
            r == self.contains(position),
    {
        position.x >= 0 && position.x < self.width && position.y >= 0 && position.y < self.height
    }
}

} // verus!
