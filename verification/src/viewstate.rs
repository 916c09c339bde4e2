//! The mathematical model of the view: a document, a caret, a window onto
//! the document, and what each command does to them.

use crate::command::{Edit, Move};
use crate::document::{
    after_delete, after_insert_char, after_insert_newline, delete_changes, find_backward,
    find_forward, graphemes_in, insert_char_changes, insert_newline_changes, is_valid,
    lemma_scan_finds_valid_location, split_lines,
};
use crate::location::Location;
use crate::position::Position;
use crate::size::Size;
use crate::text::{grapheme_count, spaces, visible, width_until};
use vstd::prelude::*;

verus! {

/// The way a search goes through the document.
#[derive(Clone, Copy, Debug, PartialEq, Eq, Structural)]
pub enum SearchDirection {
    Forward,
    Backward,
}

impl Default for SearchDirection {
    fn default() -> (direction: SearchDirection)
        ensures
            direction == SearchDirection::Forward,
    {
        SearchDirection::Forward
    }
}

/// What a running search remembers, as mathematics.
pub struct SearchState {
    pub prev_location: Location,
    pub prev_scroll_offset: Position,
    pub query: Option<Seq<char>>,
}

/// The state of a view, as mathematics.
pub struct ViewState {
    /// The texts of the document's lines.
    pub lines: Seq<Seq<char>>,
    /// The name of the file the document belongs to.
    pub file_name: Option<Seq<char>>,
    /// Whether the document has unsaved changes.
    pub dirty: bool,
    /// Whether the screen is out of date.
    pub needs_redraw: bool,
    /// The size of the window.
    pub size: Size,
    /// Where the caret stands in the document.
    pub location: Location,
    /// The cell of the document shown in the window's top left corner.
    pub scroll: Position,
    /// The running search, if any.
    pub search: Option<SearchState>,
}

/// Where the window begins along one axis after the least scrolling that
/// brings `to` into it, for a window that began at `offset` and shows
/// `extent` cells.
pub open spec fn scroll_target(offset: usize, to: usize, extent: usize) -> usize {
    if to < offset {
        to
    } else if to >= offset.saturating_add(extent) {
        to.saturating_sub(extent).saturating_add(1)
    } else {
        offset
    }
}

/// Whether `to` lies outside a window that begins at `offset` and shows
/// `extent` cells, so that the window has to move.
pub open spec fn is_outside(offset: usize, to: usize, extent: usize) -> bool {
    to < offset || to >= offset.saturating_add(extent)
}

/// A third of `extent`, rounded up.
pub open spec fn third(extent: usize) -> usize {
    if extent % 3 == 0 {
        (extent / 3) as usize
    } else {
        (extent / 3 + 1) as usize
    }
}

/// The name of the editor.
pub open spec fn name() -> Seq<char> {
    "hecto"@
}

/// The version of the editor.
pub open spec fn version() -> Seq<char> {
    "0.1.0"@
}

/// What the editor says of itself on an empty screen.
pub open spec fn welcome_text() -> Seq<char> {
    name() + " editor -- version "@ + version()
}

/// The row that greets the user in a window `width` columns wide: the
/// filler glyph, then the welcome text in the middle of what is left. It
/// is as wide as the window; where the text does not fit, it is the
/// filler glyph alone, and nothing where the window has no column.
pub open spec fn welcome_message(width: usize) -> Seq<char> {
    if width == 0 {
        Seq::empty()
    } else if width - 1 < welcome_text().len() {
        seq!['~']
    } else {
        let padding = (width - 1 - welcome_text().len()) as nat;
        seq!['~'] + spaces(padding / 2) + welcome_text() + spaces((padding - padding / 2) as nat)
    }
}

/// The cell of a window of `extent` cells at which a centred caret
/// stands: half of `extent`, rounded up, and no more than the last cell
/// (0 in a window without a cell).
pub open spec fn middle(extent: usize) -> usize {
    let half = extent / 2 + extent % 2;
    if half < extent {
        half as usize
    } else {
        extent.saturating_sub(1)
    }
}

impl ViewState {
    /// The state of a view before anything happened to it: an empty
    /// document that belongs to no file, in a window without size.
    pub open spec fn initial() -> ViewState {
        ViewState {
            lines: Seq::empty(),
            file_name: None,
            dirty: false,
            needs_redraw: false,
            size: Size { height: 0, width: 0 },
            location: Location { grapheme_idx: 0, line_idx: 0 },
            scroll: Position { col: 0, row: 0 },
            search: None,
        }
    }

    /// The number of graphemes in the line of the caret.
    pub open spec fn graphemes_here(self) -> nat {
        graphemes_in(self.lines, self.location.line_idx as int)
    }

    /// Whether the caret stands at a place of the document.
    pub open spec fn has_valid_location(self) -> bool {
        is_valid(self.lines, self.location)
    }

    /// The cell of the document on which the caret stands.
    pub open spec fn text_position(self) -> Position {
        let row = self.location.line_idx;
        Position {
            row,
            col: if row < self.lines.len() {
                width_until(self.lines[row as int], self.location.grapheme_idx as nat)
            } else {
                0
            },
        }
    }

    /// The cell of the window on which the caret stands.
    pub open spec fn caret_position(self) -> Position {
        self.text_position().minus(self.scroll)
    }

    /// Whether the caret stands on a cell that the window shows.
    pub open spec fn caret_is_visible(self) -> bool {
        &&& self.caret_position().row < self.size.height
        &&& self.caret_position().col < self.size.width
        &&& self.scroll.row <= self.text_position().row
        &&& self.scroll.col <= self.text_position().col
    }

    /// What row `current_row` of the terminal shows when the window begins
    /// at row `origin_row`: the visible part of the line of the document
    /// that falls on it; on an empty document the welcome message in the
    /// row a third down; else the filler glyph.
    pub open spec fn row_text(self, origin_row: usize, current_row: usize) -> Seq<char> {
        let line_idx = current_row.saturating_sub(origin_row).saturating_add(self.scroll.row);
        if line_idx < self.lines.len() {
            visible(
                self.lines[line_idx as int],
                self.scroll.col,
                self.scroll.col.saturating_add(self.size.width),
            )
        } else if current_row == third(self.size.height) && self.lines.len() == 0 {
            welcome_message(self.size.width)
        } else {
            seq!['~']
        }
    }

    /// The rows the window shows when its first row is row `origin_row`
    /// of the terminal: one for each row of the window, as far as the
    /// terminal's rows can be counted.
    pub open spec fn rows(self, origin_row: usize) -> Seq<(usize, Seq<char>)> {
        Seq::new(
            (origin_row.saturating_add(self.size.height) - origin_row) as nat,
            |i: int|
                (
                    (origin_row + i) as usize,
                    self.row_text(origin_row, (origin_row + i) as usize),
                ),
        )
    }

    /// The state after an attempt to read the file `file_name`: where it
    /// could be read, its contents are the document and the screen is out
    /// of date; where it could not, nothing changes.
    pub open spec fn loaded(self, file_name: Seq<char>, contents: Option<Seq<char>>) -> ViewState {
        match contents {
            Some(contents) => ViewState {
                lines: split_lines(contents),
                file_name: Some(file_name),
                dirty: false,
                needs_redraw: true,
                ..self
            },
            None => self,
        }
    }

    /// The state after an attempt to write the document to the file
    /// `file_name`: where it was written, the document belongs to that
    /// file and has no unsaved changes; where it was not, nothing changes.
    pub open spec fn save_finished(self, file_name: Seq<char>, written: bool) -> ViewState {
        if written {
            ViewState { file_name: Some(file_name), dirty: false, ..self }
        } else {
            self
        }
    }

    /// The same state with the caret at `location`.
    pub open spec fn at(self, location: Location) -> ViewState {
        ViewState { location, ..self }
    }

    /// The caret pulled back to the end of its line where it stood behind
    /// it.
    pub open spec fn snapped_to_grapheme(self) -> ViewState {
        let count = self.graphemes_here();
        self.at(
            Location {
                grapheme_idx: if self.location.grapheme_idx <= count {
                    self.location.grapheme_idx
                } else {
                    count as usize
                },
                line_idx: self.location.line_idx,
            },
        )
    }

    /// The caret pulled back to the line after the last one where it
    /// stood below it.
    pub open spec fn snapped_to_line(self) -> ViewState {
        self.at(
            Location {
                grapheme_idx: self.location.grapheme_idx,
                line_idx: if self.location.line_idx <= self.lines.len() {
                    self.location.line_idx
                } else {
                    self.lines.len() as usize
                },
            },
        )
    }

    /// The caret `step` lines up, and no further than the first line.
    pub open spec fn moved_up(self, step: usize) -> ViewState {
        self.at(
            Location {
                grapheme_idx: self.location.grapheme_idx,
                line_idx: self.location.line_idx.saturating_sub(step),
            },
        ).snapped_to_grapheme()
    }

    /// The caret `step` lines down, and no further than the line after
    /// the last one.
    pub open spec fn moved_down(self, step: usize) -> ViewState {
        self.at(
            Location {
                grapheme_idx: self.location.grapheme_idx,
                line_idx: self.location.line_idx.saturating_add(step),
            },
        ).snapped_to_grapheme().snapped_to_line()
    }

    /// The caret at the start of its line.
    pub open spec fn at_start_of_line(self) -> ViewState {
        self.at(Location { grapheme_idx: 0, line_idx: self.location.line_idx })
    }

    /// The caret at the end of its line.
    pub open spec fn at_end_of_line(self) -> ViewState {
        self.at(
            Location {
                grapheme_idx: self.graphemes_here() as usize,
                line_idx: self.location.line_idx,
            },
        )
    }

    /// The caret one grapheme to the right; from the end of a line, at
    /// the start of the next.
    pub open spec fn moved_right(self) -> ViewState {
        if self.location.grapheme_idx < self.graphemes_here() {
            self.at(
                Location {
                    grapheme_idx: (self.location.grapheme_idx + 1) as usize,
                    line_idx: self.location.line_idx,
                },
            )
        } else {
            self.at_start_of_line().moved_down(1)
        }
    }

    /// The caret one grapheme to the left; from the start of a line, at
    /// the end of the line above. At the start of the document it stays.
    pub open spec fn moved_left(self) -> ViewState {
        if self.location.grapheme_idx > 0 {
            self.at(
                Location {
                    grapheme_idx: (self.location.grapheme_idx - 1) as usize,
                    line_idx: self.location.line_idx,
                },
            )
        } else if self.location.line_idx > 0 {
            self.moved_up(1).at_end_of_line()
        } else {
            self
        }
    }

    /// The window scrolled by the least amount that shows the caret. The
    /// screen is out of date where the caret stood outside the window.
    pub open spec fn scrolled_into_view(self) -> ViewState {
        let target = self.text_position();
        ViewState {
            scroll: Position {
                row: scroll_target(self.scroll.row, target.row, self.size.height),
                col: scroll_target(self.scroll.col, target.col, self.size.width),
            },
            needs_redraw: self.needs_redraw || is_outside(
                self.scroll.row,
                target.row,
                self.size.height,
            ) || is_outside(self.scroll.col, target.col, self.size.width),
            ..self
        }
    }

    /// The caret moved as `command` says, without scrolling.
    pub open spec fn stepped(self, command: Move) -> ViewState {
        let page = self.size.height.saturating_sub(1);
        match command {
            Move::Up => self.moved_up(1),
            Move::Down => self.moved_down(1),
            Move::Left => self.moved_left(),
            Move::Right => self.moved_right(),
            Move::PageUp => self.moved_up(page),
            Move::PageDown => self.moved_down(page),
            Move::StartOfLine => self.at_start_of_line(),
            Move::EndOfLine => self.at_end_of_line(),
        }
    }

    /// The state after the movement `command`: the caret moved, and the
    /// window scrolled to show it.
    pub open spec fn moved(self, command: Move) -> ViewState {
        self.stepped(command).scrolled_into_view()
    }

    /// The state after the window got the size `size`.
    pub open spec fn sized(self, size: Size) -> ViewState {
        ViewState { size, ..self }.scrolled_into_view()
    }

    /// The state after `character` was typed. The caret goes right where
    /// the line got a grapheme more, and the window shows the caret.
    pub open spec fn char_inserted(self, character: char) -> ViewState {
        let line = self.location.line_idx as int;
        let lines = after_insert_char(self.lines, character, self.location);
        let edited = ViewState {
            lines,
            dirty: self.dirty || insert_char_changes(self.lines, self.location),
            ..self
        };
        let followed = if graphemes_in(lines, line) > graphemes_in(self.lines, line) {
            edited.moved(Move::Right)
        } else {
            edited.scrolled_into_view()
        };
        ViewState { needs_redraw: true, ..followed }
    }

    /// The state after a deletion at the caret. The window shows the
    /// caret, whose column changes where graphemes before it join.
    pub open spec fn deleted(self) -> ViewState {
        ViewState {
            needs_redraw: true,
            ..ViewState {
                lines: after_delete(self.lines, self.location),
                dirty: self.dirty || delete_changes(self.lines, self.location),
                ..self
            }.scrolled_into_view()
        }
    }

    /// The state after a deletion before the caret: the caret goes left
    /// and what it then stands on is deleted. At the start of the document
    /// nothing happens.
    pub open spec fn deleted_backward(self) -> ViewState {
        if self.location.line_idx != 0 || self.location.grapheme_idx != 0 {
            self.moved(Move::Left).deleted()
        } else {
            self
        }
    }

    /// The state after a line break was typed: the line is cut at the
    /// caret, and the caret goes to the start of the new line.
    pub open spec fn newline_inserted(self) -> ViewState {
        let edited = ViewState {
            lines: after_insert_newline(self.lines, self.location),
            dirty: self.dirty || insert_newline_changes(self.lines, self.location),
            ..self
        };
        ViewState { needs_redraw: true, ..edited.moved(Move::Right) }
    }

    /// The state after the edit `command`.
    pub open spec fn edited(self, command: Edit) -> ViewState {
        match command {
            Edit::Insert(character) => self.char_inserted(character),
            Edit::Delete => self.deleted(),
            Edit::DeleteBackward => self.deleted_backward(),
            Edit::InsertNewline => self.newline_inserted(),
        }
    }

    /// The window placed so that the caret stands at its middle, as far as
    /// the document's edge allows.
    pub open spec fn centered(self) -> ViewState {
        let target = self.text_position();
        ViewState {
            scroll: Position {
                row: target.row.saturating_sub(middle(self.size.height)),
                col: target.col.saturating_sub(middle(self.size.width)),
            },
            needs_redraw: true,
            ..self
        }
    }

    /// The state after a search was begun: the caret and the window are
    /// remembered, and there is no query yet.
    pub open spec fn search_entered(self) -> ViewState {
        ViewState {
            search: Some(
                SearchState {
                    prev_location: self.location,
                    prev_scroll_offset: self.scroll,
                    query: None,
                },
            ),
            ..self
        }
    }

    /// The state after a search was ended where it stands.
    pub open spec fn search_exited(self) -> ViewState {
        ViewState { search: None, ..self }
    }

    /// The state after a search was given up: the caret and the window
    /// are where they were when it began, and the window shows the caret.
    pub open spec fn search_dismissed(self) -> ViewState {
        match self.search {
            Some(info) => ViewState {
                search: None,
                ..ViewState {
                    location: info.prev_location,
                    scroll: info.prev_scroll_offset,
                    ..self
                }.scrolled_into_view()
            },
            None => self,
        }
    }

    /// The query of the running search.
    pub open spec fn query(self) -> Option<Seq<char>> {
        match self.search {
            Some(info) => info.query,
            None => None,
        }
    }

    /// The place of the occurrence that a search from `from` finds. There
    /// is none without a query, and none for an empty one.
    pub open spec fn found_from(self, from: Location, direction: SearchDirection) -> Option<
        Location,
    > {
        match self.query() {
            Some(query) => if query.len() == 0 {
                None
            } else if direction == SearchDirection::Forward {
                find_forward(self.lines, query, from)
            } else {
                find_backward(self.lines, query, from)
            },
            None => None,
        }
    }

    /// The state after a search from `from`: where something is found
    /// the caret goes there and the window is centred on it.
    pub open spec fn searched_from(self, from: Location, direction: SearchDirection) -> ViewState {
        match self.found_from(from, direction) {
            Some(location) => self.at(location).centered(),
            None => self,
        }
    }

    /// The state after the query of the running search became `query`:
    /// the search begins anew where the caret stood when the search was
    /// begun. Without a running search nothing happens.
    pub open spec fn searched(self, query: Seq<char>) -> ViewState {
        match self.search {
            Some(info) => self.with_query(query).searched_from(
                info.prev_location,
                SearchDirection::Forward,
            ),
            None => self,
        }
    }

    /// The same state with `query` as what the running search looks for.
    pub open spec fn with_query(self, query: Seq<char>) -> ViewState {
        match self.search {
            Some(info) => ViewState {
                search: Some(SearchState { query: Some(query), ..info }),
                ..self
            },
            None => self,
        }
    }

    /// Whether the running search, with `query` as what it looks for,
    /// finds something from where the caret stood when it began.
    pub open spec fn finds(self, query: Seq<char>) -> bool {
        match self.search {
            Some(info) => self.with_query(query).found_from(
                info.prev_location,
                SearchDirection::Forward,
            ) is Some,
            None => false,
        }
    }

    /// Where the search for the next occurrence begins: behind the caret.
    pub open spec fn next_start(self) -> Location {
        Location {
            line_idx: self.location.line_idx,
            grapheme_idx: self.location.grapheme_idx.saturating_add(self.next_step()),
        }
    }

    /// Whether the search for the next occurrence finds something.
    pub open spec fn finds_next(self) -> bool {
        self.found_from(self.next_start(), SearchDirection::Forward) is Some
    }

    /// Whether the search for the last occurrence before the caret finds
    /// something.
    pub open spec fn finds_prev(self) -> bool {
        self.found_from(self.location, SearchDirection::Backward) is Some
    }

    /// How far behind the caret the search for the next occurrence begins.
    pub open spec fn next_step(self) -> usize {
        match self.query() {
            Some(query) => if grapheme_count(query) == 0 {
                0
            } else {
                1
            },
            None => 1,
        }
    }

    /// The state after a search for the next occurrence behind the caret.
    pub open spec fn searched_next(self) -> ViewState {
        self.searched_from(self.next_start(), SearchDirection::Forward)
    }

    /// The state after a search for the last occurrence before the caret.
    pub open spec fn searched_prev(self) -> ViewState {
        self.searched_from(self.location, SearchDirection::Backward)
    }

    /// The state after each of `commands` in turn.
    pub open spec fn moved_all(self, commands: Seq<Move>) -> ViewState
        decreases commands.len(),
    {
        if commands.len() == 0 {
            self
        } else {
            self.moved_all(commands.drop_last()).moved(commands.last())
        }
    }
}

/// A movement leaves the caret at a place of the document.
pub proof fn lemma_move_keeps_location_valid(state: ViewState, command: Move)
    requires
        state.has_valid_location(),
    ensures
        state.moved(command).has_valid_location(),
        state.moved(command).lines == state.lines,
{
}

/// After each movement of a sequence the caret stands at a place of the
/// document.
pub proof fn lemma_moves_keep_location_valid(state: ViewState, commands: Seq<Move>, n: int)
    requires
        state.has_valid_location(),
        0 <= n <= commands.len(),
    ensures
        state.moved_all(commands.take(n)).has_valid_location(),
        state.moved_all(commands.take(n)).lines == state.lines,
    decreases n,
{
    if n > 0 {
        lemma_moves_keep_location_valid(state, commands, n - 1);
        assert(commands.take(n).drop_last() =~= commands.take(n - 1));
        lemma_move_keeps_location_valid(
            state.moved_all(commands.take(n - 1)),
            commands.take(n).last(),
        );
    }
}

/// A search leaves the caret at a place of the document.
pub proof fn lemma_search_keeps_location_valid(
    state: ViewState,
    from: Location,
    direction: SearchDirection,
)
    requires
        state.has_valid_location(),
        state.lines.len() <= usize::MAX,
    ensures
        state.searched_from(from, direction).has_valid_location(),
        state.searched_from(from, direction).lines == state.lines,
{
    if state.query() is Some {
        let query = state.query()->0;
        let lines = state.lines;
        lemma_scan_finds_valid_location(
            lines,
            query,
            from.line_idx as nat,
            from.grapheme_idx as nat,
        );
        if lines.len() > 0 {
            lemma_scan_finds_valid_location(
                lines,
                query,
                (lines.len() - 1) as nat,
                grapheme_count(lines[lines.len() - 1]),
            );
        }
    }
}

/// In a window that shows at least one cell, scrolling the caret into
/// view leaves it on a cell of the window.
pub proof fn lemma_scrolled_caret_is_visible(state: ViewState)
    requires
        state.size.is_visible(),
    ensures
        state.scrolled_into_view().caret_is_visible(),
{
}

/// In a window that shows at least one cell, the caret stands on a cell
/// of the window after every movement.
pub proof fn lemma_move_keeps_caret_visible(state: ViewState, command: Move)
    requires
        state.size.is_visible(),
    ensures
        state.moved(command).caret_is_visible(),
{
    lemma_scrolled_caret_is_visible(state.stepped(command));
}

/// The caret stands on a cell of the window after a resize that leaves
/// the window at least one cell.
pub proof fn lemma_resize_keeps_caret_visible(state: ViewState, size: Size)
    requires
        size.is_visible(),
    ensures
        state.sized(size).caret_is_visible(),
{
    lemma_scrolled_caret_is_visible(ViewState { size, ..state });
}

/// In a window that shows at least one cell, the caret stands on a cell
/// of the window after every edit that does anything.
pub proof fn lemma_edit_keeps_caret_visible(state: ViewState, command: Edit)
    requires
        state.size.is_visible(),
    ensures
        state.edited(command).caret_is_visible() || state.edited(command) == state,
{
    match command {
        Edit::Insert(character) => {
            let with_char = ViewState {
                lines: after_insert_char(state.lines, character, state.location),
                dirty: state.dirty || insert_char_changes(state.lines, state.location),
                ..state
            };
            lemma_move_keeps_caret_visible(with_char, Move::Right);
            lemma_scrolled_caret_is_visible(with_char);
        },
        Edit::Delete => {
            lemma_delete_keeps_caret_visible(state);
        },
        Edit::DeleteBackward => {
            lemma_delete_keeps_caret_visible(state.moved(Move::Left));
        },
        Edit::InsertNewline => {
            let with_newline = ViewState {
                lines: after_insert_newline(state.lines, state.location),
                dirty: state.dirty || insert_newline_changes(state.lines, state.location),
                ..state
            };
            lemma_move_keeps_caret_visible(with_newline, Move::Right);
        },
    }
}

proof fn lemma_delete_keeps_caret_visible(state: ViewState)
    requires
        state.size.is_visible(),
    ensures
        state.deleted().caret_is_visible(),
{
    lemma_scrolled_caret_is_visible(
        ViewState {
            lines: after_delete(state.lines, state.location),
            dirty: state.dirty || delete_changes(state.lines, state.location),
            ..state
        },
    );
}

/// In a window that shows at least one cell, the caret stands on a cell
/// of the window after a search was given up.
pub proof fn lemma_dismiss_keeps_caret_visible(state: ViewState)
    requires
        state.size.is_visible(),
        state.search is Some,
    ensures
        state.search_dismissed().caret_is_visible(),
{
    let info = state.search->0;
    lemma_scrolled_caret_is_visible(
        ViewState { location: info.prev_location, scroll: info.prev_scroll_offset, ..state },
    );
}

/// In a window that shows at least one cell, the caret stands on a cell
/// of the window after a search found something.
pub proof fn lemma_search_keeps_caret_visible(
    state: ViewState,
    from: Location,
    direction: SearchDirection,
)
    requires
        state.size.is_visible(),
        state.found_from(from, direction) is Some,
    ensures
        state.searched_from(from, direction).caret_is_visible(),
{
}

} // verus!
