use crate::line::Line;
use crate::location::Location;
use crate::position::Position;
use crate::viewstate::SearchState;
use vstd::prelude::*;

verus! {

/// What a running search remembers: where the caret and the window were
/// when it began, and what is looked for.
pub struct SearchInfo {
    pub prev_location: Location,
    pub prev_scroll_offset: Position,
    pub query: Option<Line>,
}

impl SearchInfo {
    /// The search as mathematics.
    pub open spec fn state(&self) -> SearchState {
        SearchState {
            prev_location: self.prev_location,
            prev_scroll_offset: self.prev_scroll_offset,
            query: match self.query {
                Some(line) => Some(line@),
                None => None,
            },
        }
    }
}

} // verus!
