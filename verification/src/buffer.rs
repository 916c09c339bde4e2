//! The document: its lines, the file it belongs to, and whether it has
//! changes that are not saved.

use crate::document::{
    after_delete, after_insert_char, after_insert_newline, delete_changes, find_backward,
    find_forward, insert_char_changes, insert_newline_changes, is_single_line, joined,
    lemma_split_lines_are_single, lines_from, scan_backward, scan_forward,
    split_lines,
};
use crate::line::Line;
use crate::location::Location;
use crate::text::to_chars;
use crate::unicode::push_char;
use vstd::prelude::*;

verus! {

/// The texts of a sequence of lines.
pub open spec fn texts_of_lines(lines: Seq<Line>) -> Seq<Seq<char>> {
    Seq::new(lines.len(), |i: int| lines[i]@)
}

/// What is to be written to disk to save a document.
pub struct SaveRequest {
    /// The file to write.
    pub file_name: String,
    /// What the file is to hold.
    pub contents: String,
}

/// A document in memory.
pub struct Buffer {
    pub lines: Vec<Line>,
    pub file_name: Option<String>,
    pub dirty: bool,
}

impl Default for Buffer {
    /// The empty document, which belongs to no file.
    fn default() -> (buffer: Buffer)
        ensures
            buffer.texts() == Seq::<Seq<char>>::empty(),
            buffer.file_name is None,
            !buffer.dirty,
    {
        let buffer = Buffer { lines: Vec::new(), file_name: None, dirty: false };
        buffer
    }
}

impl Buffer {
    /// The texts of the lines, in document order.
    pub open spec fn texts(&self) -> Seq<Seq<char>> {
        texts_of_lines(self.lines@)
    }

    /// The document that the file `file_name` holds, given the file's
    /// contents: one line for each line of text, without the terminators.
    pub fn load(file_name: &str, contents: &str) -> (buffer: Buffer)
        ensures
            buffer.texts() == split_lines(contents@),
            forall|k: int|
                0 <= k < buffer.texts().len() ==> is_single_line(#[trigger] buffer.texts()[k]),
            buffer.file_name matches Some(name) && name@ == file_name@,
            !buffer.dirty,
    {
        proof {
            lemma_split_lines_are_single(contents@);
        }
        let chars = to_chars(contents);
        let mut lines: Vec<Line> = Vec::new();
        let mut line_start: usize = 0;
        let mut i: usize = 0;
        while i < chars.len()
            invariant
                chars@ == contents@,
                line_start <= i <= chars.len(),
                texts_of_lines(lines@) + lines_from(contents@, line_start as int, i as int)
                    == split_lines(contents@),
            decreases chars.len() - i,
        {
            if chars[i] == '\n' {
                let end = if line_start < i && chars[i - 1] == '\r' {
                    i - 1
                } else {
                    i
                };
                let line = Line::from(contents.substring_char(line_start, end));
                let ghost before = texts_of_lines(lines@);
                lines.push(line);
                assert(before + (seq![line@] + lines_from(contents@, i + 1, i + 1)) =~= (before
                    + seq![line@]) + lines_from(contents@, i + 1, i + 1));
                line_start = i + 1;
            }
            i = i + 1;
        }
        if line_start < chars.len() {
            let line = Line::from(contents.substring_char(line_start, chars.len()));
            let ghost before = texts_of_lines(lines@);
            lines.push(line);
            assert(texts_of_lines(lines@) =~= before + seq![line@]);
        }
        Buffer { lines, file_name: Some(String::from_str(file_name)), dirty: false }
    }

    /// The text that saving writes: each line followed by a line feed.
    pub fn contents(&self) -> (contents: String)
        ensures
            contents@ == joined(self.texts()),
    {
        let mut contents = String::new();
        let mut i: usize = 0;
        while i < self.lines.len()
            invariant
                i <= self.lines.len(),
                contents@ == joined(self.texts().take(i as int)),
            decreases self.lines.len() - i,
        {
            let text = self.lines[i].to_string();
            contents.append(text.as_str());
            push_char(&mut contents, '\n');
            proof {
                let taken = self.texts().take(i + 1);
                assert(taken.drop_last() =~= self.texts().take(i as int));
            }
            i = i + 1;
        }
        assert(self.texts().take(i as int) =~= self.texts());
        contents
    }

    /// What is to be written to save the document to its file; nothing
    /// where the document belongs to no file.
    pub fn save(&self) -> (request: Option<SaveRequest>)
        ensures
            match request {
                Some(request) => self.file_name matches Some(name) && request.file_name@ == name@
                    && request.contents@ == joined(self.texts()),
                None => self.file_name is None,
            },
    {
        match &self.file_name {
            Some(name) => Some(
                SaveRequest { file_name: name.clone(), contents: self.contents() },
            ),
            None => None,
        }
    }

    /// What is to be written to save the document to the file `file_name`.
    pub fn save_as(&self, file_name: &str) -> (request: SaveRequest)
        ensures
            request.file_name@ == file_name@,
            request.contents@ == joined(self.texts()),
    {
        SaveRequest { file_name: String::from_str(file_name), contents: self.contents() }
    }

    /// Takes note of whether the document was written to the file
    /// `file_name`. If so it now belongs to that file and has no unsaved
    /// changes; if not it stays as it is, unsaved changes and all.
    pub fn finish_save(&mut self, file_name: &str, written: bool)
        ensures
            final(self).texts() == old(self).texts(),
            written ==> !final(self).dirty,
            written ==> (final(self).file_name matches Some(name) && name@ == file_name@),
            !written ==> final(self).dirty == old(self).dirty,
            !written ==> final(self).file_name == old(self).file_name,
    {
        if written {
            self.file_name = Some(String::from_str(file_name));
            self.dirty = false;
        }
    }

    /// Whether the document belongs to a file.
    pub fn is_file_loaded(&self) -> (loaded: bool)
        ensures
            loaded == self.file_name is Some,
    {
        self.file_name.is_some()
    }

    /// Whether the document has no line.
    pub fn is_empty(&self) -> (empty: bool)
        ensures
            empty == (self.texts().len() == 0),
    {
        self.lines.is_empty()
    }

    /// The number of lines.
    pub fn height(&self) -> (height: usize)
        ensures
            height == self.texts().len(),
    {
        self.lines.len()
    }

    /// Inserts `character` at `at`. In the line after the last one, the
    /// character makes a new line; beyond that nothing happens.
    pub fn insert_char(&mut self, character: char, at: Location)
        ensures
            final(self).texts() == after_insert_char(old(self).texts(), character, at),
            final(self).dirty == (old(self).dirty || insert_char_changes(old(self).texts(), at)),
            final(self).file_name == old(self).file_name,
    {
        if at.line_idx > self.height() {
            return;
        }
        if at.line_idx == self.height() {
            let mut text = String::new();
            push_char(&mut text, character);
            self.lines.push(Line::from(text.as_str()));
            self.dirty = true;
        } else {
            self.lines[at.line_idx].insert_char(character, at.grapheme_idx);
            self.dirty = true;
        }
    }

    /// Deletes at `at`: at the end of a line the next line is joined to
    /// it, within a line the grapheme at `at` goes, and elsewhere nothing
    /// happens.
    pub fn delete(&mut self, at: Location)
        ensures
            final(self).texts() == after_delete(old(self).texts(), at),
            final(self).dirty == (old(self).dirty || delete_changes(old(self).texts(), at)),
            final(self).file_name == old(self).file_name,
    {
        if at.line_idx < self.lines.len() {
            let count = self.lines[at.line_idx].grapheme_count();
            if at.grapheme_idx >= count && self.lines.len() - 1 > at.line_idx {
                let next_line = self.lines.remove(at.line_idx + 1);
                self.lines[at.line_idx].append(&next_line);
                self.dirty = true;
            } else if at.grapheme_idx < count {
                self.lines[at.line_idx].delete(at.grapheme_idx);
                self.dirty = true;
            }
        }
    }

    /// Inserts a line break at `at`: the line is cut there and what was
    /// cut off becomes the next line. In the line after the last one, an
    /// empty line is added; beyond that nothing happens.
    pub fn insert_newline(&mut self, at: Location)
        ensures
            final(self).texts() == after_insert_newline(old(self).texts(), at),
            final(self).dirty == (old(self).dirty || insert_newline_changes(
                old(self).texts(),
                at,
            )),
            final(self).file_name == old(self).file_name,
    {
        if at.line_idx == self.height() {
            self.lines.push(Line::default());
            self.dirty = true;
        } else if at.line_idx < self.lines.len() {
            let remainder = self.lines[at.line_idx].split(at.grapheme_idx);
            self.lines.insert(at.line_idx + 1, remainder);
            self.dirty = true;
        }
    }

    /// The first occurrence of `query` at or after `from`, in document
    /// order. The search ends with the last line.
    pub fn search_forward(&self, query: &str, from: Location) -> (found: Option<Location>)
        ensures
            found == find_forward(self.texts(), query@, from),
    {
        let mut line_idx = from.line_idx;
        let mut grapheme_idx = from.grapheme_idx;
        while line_idx < self.lines.len()
            invariant
                find_forward(self.texts(), query@, from) == scan_forward(
                    self.texts(),
                    query@,
                    line_idx as nat,
                    grapheme_idx as nat,
                ),
            decreases self.lines.len() - line_idx,
        {
            if let Some(found) = self.lines[line_idx].search_forward(query, grapheme_idx) {
                return Some(Location { line_idx, grapheme_idx: found });
            }
            line_idx = line_idx + 1;
            grapheme_idx = 0;
        }
        None
    }

    /// The last occurrence of `query` that ends before `from`. The search
    /// ends with the first line. From beyond the last line it begins at
    /// the end of the last line.
    pub fn search_backward(&self, query: &str, from: Location) -> (found: Option<Location>)
        ensures
            found == find_backward(self.texts(), query@, from),
    {
        if self.lines.len() == 0 {
            return None;
        }
        let mut line_idx = from.line_idx;
        let mut grapheme_idx = from.grapheme_idx;
        if line_idx >= self.lines.len() {
            line_idx = self.lines.len() - 1;
            grapheme_idx = self.lines[line_idx].grapheme_count();
        }
        loop
            invariant
                line_idx < self.lines.len(),
                find_backward(self.texts(), query@, from) == scan_backward(
                    self.texts(),
                    query@,
                    line_idx as nat,
                    grapheme_idx as nat,
                ),
            decreases line_idx,
        {
            if let Some(found) = self.lines[line_idx].search_backward(query, grapheme_idx) {
                return Some(Location { line_idx, grapheme_idx: found });
            }
            if line_idx == 0 {
                return None;
            }
            line_idx = line_idx - 1;
            grapheme_idx = self.lines[line_idx].grapheme_count();
        }
    }
}

} // verus!
