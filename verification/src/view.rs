//! The view: a document, the caret in it, and the window that shows it.

use crate::buffer::{Buffer, SaveRequest};
use crate::command::{Edit, Move};
use crate::document::joined;
use crate::documentstatus::DocumentStatus;
use crate::line::Line;
use crate::location::Location;
use crate::position::Position;
use crate::searchinfo::SearchInfo;
use crate::size::Size;
use crate::text::push_spaces;
use crate::uicomponent::{rows_shown, RenderedRow, UIComponent};
use crate::unicode::push_char;
use crate::viewstate::{
    is_outside, lemma_dismiss_keeps_caret_visible, lemma_edit_keeps_caret_visible,
    lemma_move_keeps_caret_visible, lemma_move_keeps_location_valid,
    lemma_resize_keeps_caret_visible, lemma_search_keeps_caret_visible,
    lemma_search_keeps_location_valid, middle, scroll_target, third, welcome_message,
    SearchDirection, ViewState,
};
use vstd::prelude::*;
use vstd::view::View as _;

verus! {

/// The name of the editor.
pub const NAME: &'static str = "hecto";

/// The version of the editor.
pub const VERSION: &'static str = "0.1.0";

/// What was read, as mathematics.
pub open spec fn text_of(contents: Option<&str>) -> Option<Seq<char>> {
    match contents {
        Some(contents) => Some(contents@),
        None => None,
    }
}

/// The name shown for a document that belongs to no file.
pub open spec fn no_name() -> Seq<char> {
    "[No Name]"@
}

/// The view of a document in a window of the terminal.
pub struct View {
    buffer: Buffer,
    needs_redraw: bool,
    size: Size,
    text_location: Location,
    scroll_offset: Position,
    search_info: Option<SearchInfo>,
}

impl vstd::view::View for View {
    type V = ViewState;

    closed spec fn view(&self) -> ViewState {
        ViewState {
            lines: self.buffer.texts(),
            file_name: match self.buffer.file_name {
                Some(name) => Some(name@),
                None => None,
            },
            dirty: self.buffer.dirty,
            needs_redraw: self.needs_redraw,
            size: self.size,
            location: self.text_location,
            scroll: self.scroll_offset,
            search: match self.search_info {
                Some(info) => Some(info.state()),
                None => None,
            },
        }
    }
}

impl Default for View {
    /// The view of an empty document in a window without size.
    fn default() -> (view: View)
        ensures
            view@ == ViewState::initial(),
    {
        View {
            buffer: Buffer::default(),
            needs_redraw: false,
            size: Size::default(),
            text_location: Location::default(),
            scroll_offset: Position::default(),
            search_info: None,
        }
    }
}

impl View {
    /// What the status bar is to tell of the document.
    pub fn get_status(&self) -> (status: DocumentStatus)
        ensures
            status.total_lines == self@.lines.len(),
            status.current_line_idx == self@.location.line_idx,
            status.is_modified == self@.dirty,
            status.file_name@ == match self@.file_name {
                Some(name) => name,
                None => no_name(),
            },
    {
        DocumentStatus {
            total_lines: self.buffer.height(),
            current_line_idx: self.text_location.line_idx,
            file_name: match &self.buffer.file_name {
                Some(name) => name.clone(),
                None => String::from_str("[No Name]"),
            },
            is_modified: self.buffer.dirty,
        }
    }

    /// Whether the document belongs to a file.
    pub fn is_file_loaded(&self) -> (loaded: bool)
        ensures
            loaded == self@.file_name is Some,
    {
        self.buffer.is_file_loaded()
    }

    /// Whether a search is running.
    pub fn is_searching(&self) -> (searching: bool)
        ensures
            searching == self@.search is Some,
    {
        self.search_info.is_some()
    }

    /// Begins a search: the caret and the window are remembered.
    pub fn enter_search(&mut self)
        ensures
            final(self)@ == old(self)@.search_entered(),
    {
        self.search_info = Some(
            SearchInfo {
                prev_location: self.text_location,
                prev_scroll_offset: self.scroll_offset,
                query: None,
            },
        );
    }

    /// Ends the search and leaves the caret where it is.
    pub fn exit_search(&mut self)
        ensures
            final(self)@ == old(self)@.search_exited(),
    {
        self.search_info = None;
    }

    /// Gives the search up: the caret and the window go back to where
    /// they were when it began, and the window shows the caret.
    pub fn dismiss_search(&mut self)
        ensures
            final(self)@ == old(self)@.search_dismissed(),
            old(self)@.size.is_visible() && old(self)@.search is Some
                ==> final(self)@.caret_is_visible(),
    {
        proof {
            if self@.size.is_visible() && self@.search is Some {
                lemma_dismiss_keeps_caret_visible(self@);
            }
        }
        if let Some(search_info) = &self.search_info {
            self.text_location = search_info.prev_location;
            self.scroll_offset = search_info.prev_scroll_offset;
            self.scroll_text_location_into_view();
        }
        self.search_info = None;
    }

    /// Takes `query` as what the running search looks for and searches
    /// forward from where the caret stood when the search began.
    pub fn search(&mut self, query: &str)
        ensures
            final(self)@ == old(self)@.searched(query@),
            old(self)@.has_valid_location() ==> final(self)@.has_valid_location(),
            old(self)@.size.is_visible() && old(self)@.finds(query@)
                ==> final(self)@.caret_is_visible(),
    {
        if self.search_info.is_none() {
            return;
        }
        let info = self.search_info.take().unwrap();
        let from = info.prev_location;
        self.search_info = Some(
            SearchInfo {
                prev_location: info.prev_location,
                prev_scroll_offset: info.prev_scroll_offset,
                query: Some(Line::from(query)),
            },
        );
        self.search_in_direction(from, SearchDirection::Forward);
    }

    fn search_in_direction(&mut self, from: Location, direction: SearchDirection)
        ensures
            final(self)@ == old(self)@.searched_from(from, direction),
            old(self)@.has_valid_location() ==> final(self)@.has_valid_location(),
            old(self)@.size.is_visible() && old(self)@.found_from(from, direction) is Some
                ==> final(self)@.caret_is_visible(),
    {
        proof {
            if self@.size.is_visible() && self@.found_from(from, direction) is Some {
                lemma_search_keeps_caret_visible(self@, from, direction);
            }
            if self@.has_valid_location() {
                assert(self@.lines.len() == self.buffer.lines.len());
                lemma_search_keeps_location_valid(self@, from, direction);
            }
        }
        let found = match &self.search_info {
            Some(info) => match &info.query {
                Some(query) => {
                    let text = query.to_string();
                    if text.as_str().unicode_len() == 0 {
                        None
                    } else if direction == SearchDirection::Forward {
                        self.buffer.search_forward(text.as_str(), from)
                    } else {
                        self.buffer.search_backward(text.as_str(), from)
                    }
                },
                None => None,
            },
            None => None,
        };
        if let Some(location) = found {
            self.text_location = location;
            self.center_text_location();
        }
    }

    /// Searches forward for the next occurrence behind the caret.
    pub fn search_next(&mut self)
        ensures
            final(self)@ == old(self)@.searched_next(),
            old(self)@.has_valid_location() ==> final(self)@.has_valid_location(),
            old(self)@.size.is_visible() && old(self)@.finds_next()
                ==> final(self)@.caret_is_visible(),
    {
        let step_right: usize = match &self.search_info {
            Some(info) => match &info.query {
                Some(query) => if query.grapheme_count() == 0 {
                    0
                } else {
                    1
                },
                None => 1,
            },
            None => 1,
        };
        let location = Location {
            line_idx: self.text_location.line_idx,
            grapheme_idx: self.text_location.grapheme_idx.saturating_add(step_right),
        };
        self.search_in_direction(location, SearchDirection::Forward);
    }

    /// Searches backward for the last occurrence before the caret.
    pub fn search_prev(&mut self)
        ensures
            final(self)@ == old(self)@.searched_prev(),
            old(self)@.has_valid_location() ==> final(self)@.has_valid_location(),
            old(self)@.size.is_visible() && old(self)@.finds_prev()
                ==> final(self)@.caret_is_visible(),
    {
        self.search_in_direction(self.text_location, SearchDirection::Backward);
    }

    fn center_text_location(&mut self)
        ensures
            final(self)@ == old(self)@.centered(),
    {
        let Size { height, width } = self.size;
        let Position { row, col } = self.text_location_to_position();
        self.scroll_offset.row = row.saturating_sub(Self::middle_of(height));
        self.scroll_offset.col = col.saturating_sub(Self::middle_of(width));
        self.needs_redraw = true;
    }

    fn middle_of(extent: usize) -> (cell: usize)
        ensures
            cell == middle(extent),
    {
        let half = extent / 2 + extent % 2;
        if half < extent {
            half
        } else {
            extent.saturating_sub(1)
        }
    }

    /// Where the caret stands in the document.
    pub fn text_location(&self) -> (location: Location)
        ensures
            location == self@.location,
    {
        self.text_location
    }

    /// The cell of the window on which the caret stands.
    pub fn caret_position(&self) -> (position: Position)
        ensures
            position == self@.caret_position(),
    {
        self.text_location_to_position().saturating_sub(self.scroll_offset)
    }

    fn text_location_to_position(&self) -> (position: Position)
        ensures
            position == self@.text_position(),
    {
        let row = self.text_location.line_idx;
        let col = if row < self.buffer.lines.len() {
            self.buffer.lines[row].width_until(self.text_location.grapheme_idx)
        } else {
            0
        };
        Position { col, row }
    }

    fn scroll_vertically(&mut self, to: usize)
        ensures
            *final(self) == (View {
                scroll_offset: Position {
                    row: scroll_target(old(self).scroll_offset.row, to, old(self).size.height),
                    col: old(self).scroll_offset.col,
                },
                needs_redraw: old(self).needs_redraw || is_outside(
                    old(self).scroll_offset.row,
                    to,
                    old(self).size.height,
                ),
                ..*old(self)
            }),
    {
        let height = self.size.height;
        let offset_changed = if to < self.scroll_offset.row {
            self.scroll_offset.row = to;
            true
        } else if to >= self.scroll_offset.row.saturating_add(height) {
            self.scroll_offset.row = to.saturating_sub(height).saturating_add(1);
            true
        } else {
            false
        };
        if offset_changed {
            self.needs_redraw = true;
        }
    }

    fn scroll_horizontally(&mut self, to: usize)
        ensures
            *final(self) == (View {
                scroll_offset: Position {
                    row: old(self).scroll_offset.row,
                    col: scroll_target(old(self).scroll_offset.col, to, old(self).size.width),
                },
                needs_redraw: old(self).needs_redraw || is_outside(
                    old(self).scroll_offset.col,
                    to,
                    old(self).size.width,
                ),
                ..*old(self)
            }),
    {
        let width = self.size.width;
        let offset_changed = if to < self.scroll_offset.col {
            self.scroll_offset.col = to;
            true
        } else if to >= self.scroll_offset.col.saturating_add(width) {
            self.scroll_offset.col = to.saturating_sub(width).saturating_add(1);
            true
        } else {
            false
        };
        if offset_changed {
            self.needs_redraw = true;
        }
    }

    /// This view with its window scrolled so that it shows the caret.
    spec fn scrolled(&self) -> View {
        let state = self@.scrolled_into_view();
        View { scroll_offset: state.scroll, needs_redraw: state.needs_redraw, ..*self }
    }

    fn scroll_text_location_into_view(&mut self)
        ensures
            *final(self) == old(self).scrolled(),
            final(self)@ == old(self)@.scrolled_into_view(),
    {
        let Position { row, col } = self.text_location_to_position();
        self.scroll_vertically(row);
        self.scroll_horizontally(col);
    }

    /// Takes the contents of the file `file_name` as the document, where
    /// the file could be read: `contents` is what was read. Where it could
    /// not, the view stays as it is.
    pub fn load(&mut self, file_name: &str, contents: Option<&str>)
        ensures
            final(self)@ == old(self)@.loaded(file_name@, text_of(contents)),
    {
        if let Some(contents) = contents {
            self.buffer = Buffer::load(file_name, contents);
            self.needs_redraw = true;
        }
    }

    /// What is to be written to save the document to its file; nothing
    /// where the document belongs to no file.
    pub fn save(&self) -> (request: Option<SaveRequest>)
        ensures
            match request {
                Some(request) => self@.file_name == Some(request.file_name@)
                    && request.contents@ == joined(self@.lines),
                None => self@.file_name is None,
            },
    {
        self.buffer.save()
    }

    /// What is to be written to save the document to the file `file_name`.
    pub fn save_as(&self, file_name: &str) -> (request: SaveRequest)
        ensures
            request.file_name@ == file_name@,
            request.contents@ == joined(self@.lines),
    {
        self.buffer.save_as(file_name)
    }

    /// Takes note of whether the document was written to the file
    /// `file_name`. If so it now belongs to that file and has no unsaved
    /// changes; if not everything stays as it is.
    pub fn finish_save(&mut self, file_name: &str, written: bool)
        ensures
            final(self)@ == old(self)@.save_finished(file_name@, written),
    {
        self.buffer.finish_save(file_name, written);
    }

    /// Carries out the edit `command` at the caret.
    pub fn handle_edit_command(&mut self, command: Edit)
        ensures
            final(self)@ == old(self)@.edited(command),
            old(self)@.size.is_visible()
                ==> final(self)@.caret_is_visible() || final(self)@ == old(self)@,
    {
        proof {
            if self@.size.is_visible() {
                lemma_edit_keeps_caret_visible(self@, command);
            }
        }
        match command {
            Edit::Insert(character) => self.insert_char(character),
            Edit::Delete => self.delete(),
            Edit::DeleteBackward => self.delete_backward(),
            Edit::InsertNewline => self.insert_newline(),
        }
    }

    /// Moves the caret as `command` says and scrolls the window so that
    /// it shows the caret.
    pub fn handle_move_command(&mut self, command: Move)
        ensures
            final(self)@ == old(self)@.moved(command),
            old(self)@.has_valid_location() ==> final(self)@.has_valid_location(),
            old(self)@.size.is_visible() ==> final(self)@.caret_is_visible(),
    {
        proof {
            if self@.has_valid_location() {
                lemma_move_keeps_location_valid(self@, command);
            }
            if self@.size.is_visible() {
                lemma_move_keeps_caret_visible(self@, command);
            }
        }
        let height = self.size.height;
        match command {
            Move::Up => self.move_up(1),
            Move::Down => self.move_down(1),
            Move::Left => self.move_left(),
            Move::Right => self.move_right(),
            Move::PageUp => self.move_up(height.saturating_sub(1)),
            Move::PageDown => self.move_down(height.saturating_sub(1)),
            Move::StartOfLine => self.move_to_start_of_line(),
            Move::EndOfLine => self.move_to_end_of_line(),
        }
        self.scroll_text_location_into_view();
    }

    fn insert_newline(&mut self)
        ensures
            final(self)@ == old(self)@.newline_inserted(),
    {
        self.buffer.insert_newline(self.text_location);
        self.handle_move_command(Move::Right);
        self.needs_redraw = true;
    }

    fn delete_backward(&mut self)
        ensures
            final(self)@ == old(self)@.deleted_backward(),
    {
        if self.text_location.line_idx != 0 || self.text_location.grapheme_idx != 0 {
            self.handle_move_command(Move::Left);
            self.delete();
        }
    }

    fn delete(&mut self)
        ensures
            final(self)@ == old(self)@.deleted(),
    {
        self.buffer.delete(self.text_location);
        self.scroll_text_location_into_view();
        self.needs_redraw = true;
    }

    fn insert_char(&mut self, character: char)
        ensures
            final(self)@ == old(self)@.char_inserted(character),
    {
        let old_len = self.graphemes_in_current_line();
        self.buffer.insert_char(character, self.text_location);
        let new_len = self.graphemes_in_current_line();
        if new_len > old_len {
            self.handle_move_command(Move::Right);
        } else {
            self.scroll_text_location_into_view();
        }
        self.needs_redraw = true;
    }

    fn graphemes_in_current_line(&self) -> (count: usize)
        ensures
            count == self@.graphemes_here(),
    {
        if self.text_location.line_idx < self.buffer.lines.len() {
            self.buffer.lines[self.text_location.line_idx].grapheme_count()
        } else {
            0
        }
    }

    /// The row that greets the user in a window `width` columns wide.
    pub fn build_welcome_message(width: usize) -> (message: String)
        ensures
            message@ == welcome_message(width),
    {
        if width == 0 {
            return String::new();
        }
        let mut welcome = String::from_str(NAME);
        welcome.append(" editor -- version ");
        welcome.append(VERSION);
        let len = welcome.as_str().unicode_len();
        let remaining_width = width - 1;
        if remaining_width < len {
            proof {
                reveal_strlit("~");
            }
            let filler = String::from_str("~");
            return filler;
        }
        let padding = remaining_width - len;
        let left = padding / 2;
        let mut message = String::new();
        push_char(&mut message, '~');
        push_spaces(&mut message, left);
        message.append(welcome.as_str());
        push_spaces(&mut message, padding - left);
        message
    }

    fn move_up(&mut self, step: usize)
        ensures
            final(self)@ == old(self)@.moved_up(step),
    {
        self.text_location.line_idx = self.text_location.line_idx.saturating_sub(step);
        self.snap_to_valid_grapheme();
    }

    fn move_down(&mut self, step: usize)
        ensures
            final(self)@ == old(self)@.moved_down(step),
    {
        self.text_location.line_idx = self.text_location.line_idx.saturating_add(step);
        self.snap_to_valid_grapheme();
        self.snap_to_valid_line();
    }

    fn move_right(&mut self)
        ensures
            final(self)@ == old(self)@.moved_right(),
    {
        let line_width = self.graphemes_in_current_line();
        if self.text_location.grapheme_idx < line_width {
            self.text_location.grapheme_idx = self.text_location.grapheme_idx + 1;
        } else {
            self.move_to_start_of_line();
            self.move_down(1);
        }
    }

    fn move_left(&mut self)
        ensures
            final(self)@ == old(self)@.moved_left(),
    {
        if self.text_location.grapheme_idx > 0 {
            self.text_location.grapheme_idx = self.text_location.grapheme_idx - 1;
        } else if self.text_location.line_idx > 0 {
            self.move_up(1);
            self.move_to_end_of_line();
        }
    }

    fn move_to_start_of_line(&mut self)
        ensures
            final(self)@ == old(self)@.at_start_of_line(),
    {
        self.text_location.grapheme_idx = 0;
    }

    fn move_to_end_of_line(&mut self)
        ensures
            final(self)@ == old(self)@.at_end_of_line(),
    {
        self.text_location.grapheme_idx = self.graphemes_in_current_line();
    }

    fn snap_to_valid_grapheme(&mut self)
        ensures
            final(self)@ == old(self)@.snapped_to_grapheme(),
    {
        let count = self.graphemes_in_current_line();
        if self.text_location.grapheme_idx > count {
            self.text_location.grapheme_idx = count;
        }
    }

    fn snap_to_valid_line(&mut self)
        ensures
            final(self)@ == old(self)@.snapped_to_line(),
    {
        let height = self.buffer.height();
        if self.text_location.line_idx > height {
            self.text_location.line_idx = height;
        }
    }
}

impl View {
    /// Marking the view changes nothing but whether the screen is out of
    /// date.
    pub proof fn lemma_marked_as(self, value: bool)
        ensures
            self.marked_as(value)@ == (ViewState { needs_redraw: value, ..self@ }),
    {
    }

    /// A view that is given a size takes it and scrolls its window so
    /// that it shows the caret.
    pub proof fn lemma_sized(self, size: Size)
        ensures
            self.sized(size)@ == self@.sized(size),
    {
    }
}

impl UIComponent for View {
    open spec fn redraw_due(&self) -> bool {
        self@.needs_redraw
    }

    open spec fn marked(&self) -> bool {
        self@.needs_redraw
    }

    closed spec fn marked_as(&self, value: bool) -> View {
        View { needs_redraw: value, ..*self }
    }

    closed spec fn sized(&self, size: Size) -> View {
        View { size, ..*self }.scrolled()
    }

    open spec fn shown(&self, origin_row: usize) -> Seq<(usize, Seq<char>)> {
        self@.rows(origin_row)
    }

    open spec fn after_draw(&self) -> View {
        *self
    }

    proof fn lemma_marked_is_due(&self) {
    }

    fn set_needs_redraw(&mut self, value: bool)
        ensures
            final(self)@ == (ViewState { needs_redraw: value, ..old(self)@ }),
    {
        self.needs_redraw = value;
    }

    fn needs_redraw(&self) -> (due: bool) {
        self.needs_redraw
    }

    fn set_size(&mut self, size: Size)
        ensures
            final(self)@ == old(self)@.sized(size),
            size.is_visible() ==> final(self)@.caret_is_visible(),
    {
        proof {
            if size.is_visible() {
                lemma_resize_keeps_caret_visible(self@, size);
            }
        }
        self.size = size;
        self.scroll_text_location_into_view();
    }

    fn draw(&mut self, origin_row: usize) -> (rows: Vec<RenderedRow>) {
        let Size { height, width } = self.size;
        let end_y = origin_row.saturating_add(height);
        let top_third = if height % 3 == 0 {
            height / 3
        } else {
            height / 3 + 1
        };
        let scroll_top = self.scroll_offset.row;
        let left = self.scroll_offset.col;
        let right = self.scroll_offset.col.saturating_add(width);
        let mut rows: Vec<RenderedRow> = Vec::new();
        let mut current_row = origin_row;
        while current_row < end_y
            invariant
                origin_row <= current_row <= end_y,
                end_y == origin_row.saturating_add(height),
                *self == *old(self),
                height == self@.size.height,
                width == self@.size.width,
                top_third == third(height),
                scroll_top == self@.scroll.row,
                left == self@.scroll.col,
                right == left.saturating_add(width),
                rows@.len() == current_row - origin_row,
                forall|i: int|
                    0 <= i < rows@.len() ==> (#[trigger] rows@[i]).row == origin_row + i
                        && rows@[i].text@ == self@.row_text(origin_row, rows@[i].row),
            decreases end_y - current_row,
        {
            let line_idx = current_row.saturating_sub(origin_row).saturating_add(scroll_top);
            let text = if line_idx < self.buffer.lines.len() {
                self.buffer.lines[line_idx].get_visible_graphemes(left..right)
            } else if current_row == top_third && self.buffer.is_empty() {
                Self::build_welcome_message(width)
            } else {
                proof {
                    reveal_strlit("~");
                }
                String::from_str("~")
            };
            rows.push(RenderedRow { row: current_row, text });
            current_row = current_row + 1;
        }
        assert(rows_shown(rows@) =~= self@.rows(origin_row));
        rows
    }
}

} // verus!
