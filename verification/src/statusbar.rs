//! The status bar: one row that names the document and tells its length,
//! whether it has unsaved changes, and where the caret is.

use crate::documentstatus::{
    line_count_text, modified_indicator_text, position_indicator_text, DocumentStatus,
};
use crate::size::Size;
use crate::text::{push_spaces, spaces};
use crate::uicomponent::RenderedRow;
use vstd::prelude::*;
use vstd::utf8::encode_utf8;

verus! {

/// The number of bytes `text` takes in UTF-8.
pub open spec fn byte_len(text: Seq<char>) -> usize {
    encode_utf8(text).len() as usize
}

/// The left part of the status row: the name of the file, the number of
/// lines, and the mark of unsaved changes.
pub open spec fn status_beginning(status: DocumentStatus) -> Seq<char> {
    status.file_name@ + " - "@ + line_count_text(status.total_lines) + " "@
        + modified_indicator_text(status.is_modified)
}

/// `text` with spaces before it that fill it up to `width` characters.
pub open spec fn right_aligned(text: Seq<char>, width: usize) -> Seq<char> {
    if text.len() < width {
        spaces((width - text.len()) as nat) + text
    } else {
        text
    }
}

/// The status row for a terminal `width` columns wide: the left part, and
/// the place of the caret at the right edge. Where that takes more bytes
/// than the terminal has columns, the row is empty.
pub open spec fn status_text(status: DocumentStatus, width: usize) -> Seq<char> {
    let beginning = status_beginning(status);
    let remainder = width.saturating_sub(byte_len(beginning));
    let row = beginning + right_aligned(
        position_indicator_text(status.current_line_idx, status.total_lines),
        remainder,
    );
    if byte_len(row) <= width {
        row
    } else {
        Seq::empty()
    }
}

/// The row of a terminal `height` rows high in which a bar stands that
/// leaves `margin_bottom` rows below it free.
pub open spec fn bar_row(height: usize, margin_bottom: usize) -> Option<usize> {
    if height > margin_bottom {
        Some((height - margin_bottom - 1) as usize)
    } else {
        None
    }
}

/// The status bar.
pub struct StatusBar {
    current_status: DocumentStatus,
    needs_redraw: bool,
    margin_bottom: usize,
    width: usize,
    position_y: usize,
    is_visible: bool,
}

impl StatusBar {
    /// What the bar tells.
    pub closed spec fn status(&self) -> DocumentStatus {
        self.current_status
    }

    /// Whether the bar is to be drawn again.
    pub closed spec fn redraw_due(&self) -> bool {
        self.needs_redraw
    }

    /// The number of rows left free below the bar.
    pub closed spec fn margin(&self) -> usize {
        self.margin_bottom
    }

    /// The width the bar was given.
    pub closed spec fn columns(&self) -> usize {
        self.width
    }

    /// The row of the terminal in which the bar stands, where the
    /// terminal has room for it.
    pub closed spec fn row(&self) -> Option<usize> {
        if self.is_visible {
            Some(self.position_y)
        } else {
            None
        }
    }

    /// The bar for a terminal of size `size`, with `margin_bottom` rows
    /// left free below it. It tells of an empty document and is to be
    /// drawn.
    pub fn new(margin_bottom: usize, size: Size) -> (bar: StatusBar)
        ensures
            bar.status().is_blank(),
            bar.redraw_due(),
            bar.margin() == margin_bottom,
            bar.columns() == size.width,
            bar.row() == bar_row(size.height, margin_bottom),
    {
        let mut status_bar = StatusBar {
            current_status: DocumentStatus::default(),
            needs_redraw: true,
            margin_bottom,
            width: size.width,
            position_y: 0,
            is_visible: false,
        };
        status_bar.resize(size);
        status_bar
    }

    /// Places the bar in a terminal of size `size` and marks it as to be
    /// drawn.
    pub fn resize(&mut self, size: Size)
        ensures
            final(self).status() == old(self).status(),
            final(self).redraw_due(),
            final(self).margin() == old(self).margin(),
            final(self).columns() == size.width,
            final(self).row() == bar_row(size.height, old(self).margin()),
    {
        self.width = size.width;
        let mut position_y: usize = 0;
        let mut is_visible = false;
        if let Some(above_margin) = size.height.checked_sub(self.margin_bottom) {
            if let Some(result) = above_margin.checked_sub(1) {
                position_y = result;
                is_visible = true;
            }
        }
        self.position_y = position_y;
        self.is_visible = is_visible;
        self.needs_redraw = true;
    }

    /// Takes `new_status` as what the bar tells. Where that is something
    /// new, the bar is to be drawn again.
    pub fn update_status(&mut self, new_status: DocumentStatus)
        ensures
            final(self).status().same_as(&new_status),
            final(self).redraw_due() == (old(self).redraw_due() || !new_status.same_as(
                &old(self).status(),
            )),
            final(self).margin() == old(self).margin(),
            final(self).columns() == old(self).columns(),
            final(self).row() == old(self).row(),
    {
        if !new_status.equals(&self.current_status) {
            self.current_status = new_status;
            self.needs_redraw = true;
        }
    }

    /// The row to print, in a terminal of size `size`, where the bar is
    /// to be drawn again and the terminal has room for it. The bar is then
    /// up to date.
    pub fn render(&mut self, size: Size) -> (row: Option<RenderedRow>)
        ensures
            final(self).status() == old(self).status(),
            final(self).margin() == old(self).margin(),
            final(self).columns() == old(self).columns(),
            final(self).row() == old(self).row(),
            match row {
                Some(rendered) => old(self).redraw_due() && old(self).row() == Some(rendered.row)
                    && rendered.text@ == status_text(old(self).status(), size.width)
                    && !final(self).redraw_due(),
                None => (!old(self).redraw_due() || old(self).row() is None)
                    && final(self).redraw_due() == old(self).redraw_due(),
            },
    {
        if !self.needs_redraw || !self.is_visible {
            return None;
        }
        let line_count = self.current_status.line_count_to_string();
        let modified_indicator = self.current_status.modified_indicator_to_string();
        let mut beginning = self.current_status.file_name.clone();
        beginning.append(" - ");
        beginning.append(line_count.as_str());
        beginning.append(" ");
        beginning.append(modified_indicator.as_str());
        let position_indicator = self.current_status.position_indicator_to_string();
        let remainder_len = size.width.saturating_sub(beginning.as_str().len());
        let indicator_len = position_indicator.as_str().unicode_len();
        let ghost left = beginning@;
        let mut status = beginning;
        if indicator_len < remainder_len {
            push_spaces(&mut status, remainder_len - indicator_len);
        }
        status.append(position_indicator.as_str());
        assert(status@ =~= left + right_aligned(position_indicator@, remainder_len));
        let to_print = if status.as_str().len() <= size.width {
            status
        } else {
            String::new()
        };
        self.needs_redraw = false;
        Some(RenderedRow { row: self.position_y, text: to_print })
    }
}

} // verus!
