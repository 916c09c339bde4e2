//! What the status bar tells of the document, and how it is worded.

use crate::unicode::push_char;
use vstd::prelude::*;

verus! {

/// The character for the digit `d`.
pub open spec fn digit(d: nat) -> char {
    if d == 0 {
        '0'
    } else if d == 1 {
        '1'
    } else if d == 2 {
        '2'
    } else if d == 3 {
        '3'
    } else if d == 4 {
        '4'
    } else if d == 5 {
        '5'
    } else if d == 6 {
        '6'
    } else if d == 7 {
        '7'
    } else if d == 8 {
        '8'
    } else {
        '9'
    }
}

/// `n` written in decimal digits, without leading zeros.
pub open spec fn decimal(n: nat) -> Seq<char>
    decreases n,
{
    if n < 10 {
        seq![digit(n)]
    } else {
        decimal(n / 10).push(digit(n % 10))
    }
}

/// The words that tell the number of lines.
pub open spec fn line_count_text(total_lines: usize) -> Seq<char> {
    decimal(total_lines as nat) + " lines"@
}

/// The words that tell whether the document has unsaved changes.
pub open spec fn modified_indicator_text(is_modified: bool) -> Seq<char> {
    if is_modified {
        "(modified)"@
    } else {
        Seq::empty()
    }
}

/// The words that tell where the caret is: its line, counted from 1, and
/// the number of lines.
pub open spec fn position_indicator_text(current_line_idx: usize, total_lines: usize) -> Seq<
    char,
> {
    decimal(current_line_idx.saturating_add(1) as nat) + seq!['/'] + decimal(total_lines as nat)
}

fn digit_char(d: usize) -> (c: char)
    requires
        d < 10,
    ensures
        c == digit(d as nat),
{
    if d == 0 {
        '0'
    } else if d == 1 {
        '1'
    } else if d == 2 {
        '2'
    } else if d == 3 {
        '3'
    } else if d == 4 {
        '4'
    } else if d == 5 {
        '5'
    } else if d == 6 {
        '6'
    } else if d == 7 {
        '7'
    } else if d == 8 {
        '8'
    } else {
        '9'
    }
}

/// Appends `n` in decimal digits to `text`.
pub(crate) fn push_decimal(text: &mut String, n: usize)
    ensures
        final(text)@ == old(text)@ + decimal(n as nat),
    decreases n,
{
    if n >= 10 {
        push_decimal(text, n / 10);
    }
    push_char(text, digit_char(n % 10));
}

/// What the status bar tells of the document.
#[derive(Debug)]
pub struct DocumentStatus {
    pub total_lines: usize,
    pub current_line_idx: usize,
    pub is_modified: bool,
    pub file_name: String,
}

impl DocumentStatus {
    /// Whether this is the status of an empty document without a name.
    pub open spec fn is_blank(&self) -> bool {
        &&& self.total_lines == 0
        &&& self.current_line_idx == 0
        &&& !self.is_modified
        &&& self.file_name@ == Seq::<char>::empty()
    }

    /// Whether two statuses tell the same.
    pub open spec fn same_as(&self, other: &DocumentStatus) -> bool {
        &&& self.total_lines == other.total_lines
        &&& self.current_line_idx == other.current_line_idx
        &&& self.is_modified == other.is_modified
        &&& self.file_name@ == other.file_name@
    }

    /// Whether two statuses tell the same.
    pub fn equals(&self, other: &DocumentStatus) -> (same: bool)
        ensures
            same == self.same_as(other),
    {
        self.total_lines == other.total_lines && self.current_line_idx == other.current_line_idx
            && self.is_modified == other.is_modified && self.file_name == other.file_name
    }

    /// The word that marks a document with unsaved changes.
    pub fn modified_indicator_to_string(&self) -> (text: String)
        ensures
            text@ == modified_indicator_text(self.is_modified),
    {
        if self.is_modified {
            String::from_str("(modified)")
        } else {
            String::new()
        }
    }

    /// The number of lines, in words.
    pub fn line_count_to_string(&self) -> (text: String)
        ensures
            text@ == line_count_text(self.total_lines),
    {
        let mut text = String::new();
        push_decimal(&mut text, self.total_lines);
        text.append(" lines");
        text
    }

    /// The line of the caret, counted from 1, and the number of lines.
    pub fn position_indicator_to_string(&self) -> (text: String)
        ensures
            text@ == position_indicator_text(self.current_line_idx, self.total_lines),
    {
        let mut text = String::new();
        push_decimal(&mut text, self.current_line_idx.saturating_add(1));
        push_char(&mut text, '/');
        push_decimal(&mut text, self.total_lines);
        text
    }
}

impl Default for DocumentStatus {
    /// The status of an empty document without a name.
    fn default() -> (status: DocumentStatus)
        ensures
            status.is_blank(),
    {
        DocumentStatus {
            total_lines: 0,
            current_line_idx: 0,
            is_modified: false,
            file_name: String::new(),
        }
    }
}

} // verus!
