use vstd::prelude::*;

verus! {

/// A place in a document: a line, and a grapheme within that line.
#[derive(Clone, Copy, Debug, PartialEq, Eq, Structural)]
pub struct Location {
    pub grapheme_idx: usize,
    pub line_idx: usize,
}

impl Default for Location {
    /// The start of the document.
    fn default() -> (location: Location)
        ensures
            location == (Location { grapheme_idx: 0, line_idx: 0 }),
    {
        Location { grapheme_idx: 0, line_idx: 0 }
    }
}

} // verus!
