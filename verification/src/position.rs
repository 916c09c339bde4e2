use vstd::prelude::*;

verus! {

/// A cell of a grid of rows and columns, counted from 0.
#[derive(Clone, Copy, Debug, PartialEq, Eq, Structural)]
pub struct Position {
    pub col: usize,
    pub row: usize,
}

impl Position {
    /// This position as seen from `other`: both coordinates less those of
    /// `other`, and 0 where `other` lies beyond.
    pub open spec fn minus(self, other: Position) -> Position {
        Position {
            col: if self.col >= other.col {
                (self.col - other.col) as usize
            } else {
                0
            },
            row: if self.row >= other.row {
                (self.row - other.row) as usize
            } else {
                0
            },
        }
    }

    /// This position as seen from `other`.
    pub fn saturating_sub(self, other: Position) -> (difference: Position)
        ensures
            difference == self.minus(other),
    {
        Position {
            col: self.col.saturating_sub(other.col),
            row: self.row.saturating_sub(other.row),
        }
    }
}

impl Default for Position {
    /// The top left cell.
    fn default() -> (position: Position)
        ensures
            position == (Position { col: 0, row: 0 }),
    {
        Position { col: 0, row: 0 }
    }
}

} // verus!
