//! What the parts of the screen have in common: each knows whether it is
//! out of date, can be given a size, and can say what it shows.

use crate::size::Size;
use vstd::prelude::*;

verus! {

/// The text to print in one row of the terminal.
pub struct RenderedRow {
    /// The row of the terminal, counted from 0.
    pub row: usize,
    /// What the row is to show.
    pub text: String,
}

/// What `rows` show, as mathematics: for each row its number and its
/// text.
pub open spec fn rows_shown(rows: Seq<RenderedRow>) -> Seq<(usize, Seq<char>)> {
    Seq::new(rows.len(), |i: int| (rows[i].row, rows[i].text@))
}

/// A part of the screen that is drawn again when it is out of date.
///
/// Drawing takes two steps, since printing can fail: `render` hands out
/// the rows to print where the component is out of date, and
/// `finish_render` is told whether they were printed. Only then is the
/// mark cleared; after a failure it stays, and the next `render` hands
/// the rows out again.
pub trait UIComponent: Sized {
    /// Whether the component is to be drawn again.
    spec fn redraw_due(&self) -> bool;

    /// Whether the component is marked as out of date.
    spec fn marked(&self) -> bool;

    /// The component with its mark set to `value`, and otherwise as it is.
    spec fn marked_as(&self, value: bool) -> Self;

    /// The component after it was given the size `size`.
    spec fn sized(&self, size: Size) -> Self;

    /// The rows the component shows when its first row is row
    /// `origin_row` of the terminal.
    spec fn shown(&self, origin_row: usize) -> Seq<(usize, Seq<char>)>;

    /// The component after it was drawn.
    spec fn after_draw(&self) -> Self;

    /// A component that is marked as out of date is to be drawn again.
    proof fn lemma_marked_is_due(&self)
        ensures
            self.marked() ==> self.redraw_due(),
    ;

    /// Marks the component as out of date, or as up to date.
    fn set_needs_redraw(&mut self, value: bool)
        ensures
            *final(self) == old(self).marked_as(value),
            final(self).marked() == value,
            value ==> final(self).redraw_due(),
    ;

    /// Whether the component is to be drawn again.
    fn needs_redraw(&self) -> (due: bool)
        ensures
            due == self.redraw_due(),
    ;

    /// Gives the component a new size and marks it as out of date.
    fn resize(&mut self, size: Size)
        ensures
            *final(self) == old(self).sized(size).marked_as(true),
            final(self).marked(),
            final(self).redraw_due(),
    {
        self.set_size(size);
        self.set_needs_redraw(true);
    }

    /// Gives the component a new size.
    fn set_size(&mut self, size: Size)
        ensures
            *final(self) == old(self).sized(size),
    ;

    /// The rows the component shows when its first row is row
    /// `origin_row` of the terminal. Drawing leaves the mark as it is.
    fn draw(&mut self, origin_row: usize) -> (rows: Vec<RenderedRow>)
        ensures
            rows_shown(rows@) == old(self).shown(origin_row),
            *final(self) == old(self).after_draw(),
            final(self).marked() == old(self).marked(),
    ;

    /// The rows to print, where the component is to be drawn again: those
    /// that `draw` gives. Where it is not, nothing happens.
    fn render(&mut self, origin_row: usize) -> (rows: Option<Vec<RenderedRow>>)
        ensures
            match rows {
                Some(rows) => {
                    &&& old(self).redraw_due()
                    &&& rows_shown(rows@) == old(self).shown(origin_row)
                    &&& *final(self) == old(self).after_draw()
                    &&& final(self).marked() == old(self).marked()
                },
                None => !old(self).redraw_due() && *final(self) == *old(self),
            },
    {
        if self.needs_redraw() {
            Some(self.draw(origin_row))
        } else {
            None
        }
    }

    /// Takes note of whether the rows handed out by `render` were
    /// printed: if so the mark is cleared, and if not the component stays
    /// as it is, so that the next `render` hands the rows out again.
    fn finish_render(&mut self, drawn: bool)
        ensures
            drawn ==> *final(self) == old(self).marked_as(false) && !final(self).marked(),
            !drawn ==> *final(self) == *old(self),
    {
        if drawn {
            self.set_needs_redraw(false);
        }
    }
}

} // verus!
