use vstd::prelude::*;

verus! {

/// The extent of a rectangular area of the terminal, in rows and columns.
#[derive(Clone, Copy, Debug, PartialEq, Eq, Structural)]
pub struct Size {
    pub height: usize,
    pub width: usize,
}

impl Size {
    /// Whether the area holds at least one cell.
    pub open spec fn is_visible(self) -> bool {
        self.height > 0 && self.width > 0
    }
}

impl Default for Size {
    /// The area without any cell.
    fn default() -> (size: Size)
        ensures
            size == (Size { height: 0, width: 0 }),
    {
        Size { height: 0, width: 0 }
    }
}

} // verus!
