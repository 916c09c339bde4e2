//! The mathematical model of a document: a sequence of lines of text, and
//! what editing and searching do to it.

use crate::location::Location;
use crate::text::{
    deleted, grapheme_count, inserted, lemma_search_answers_in_range, search_backward,
    search_forward, split_head, split_tail,
};
use vstd::prelude::*;

verus! {

/// The number of graphemes in line `line` of `lines`; 0 where the document
/// has no such line.
pub open spec fn graphemes_in(lines: Seq<Seq<char>>, line: int) -> nat {
    if 0 <= line < lines.len() {
        grapheme_count(lines[line])
    } else {
        0
    }
}

/// Whether `at` is a place where the caret can stand: in a line of the
/// document and not behind its last grapheme, or at the start of the line
/// after the last one.
pub open spec fn is_valid(lines: Seq<Seq<char>>, at: Location) -> bool {
    &&& at.line_idx <= lines.len()
    &&& at.grapheme_idx <= graphemes_in(lines, at.line_idx as int)
}

/// The document after `c` is inserted at `at`. In the line after the last
/// one, the character makes a new line; beyond that nothing changes.
pub open spec fn after_insert_char(lines: Seq<Seq<char>>, c: char, at: Location) -> Seq<Seq<char>> {
    let line = at.line_idx as int;
    if line > lines.len() {
        lines
    } else if line == lines.len() {
        lines.push(seq![c])
    } else {
        lines.update(line, inserted(lines[line], c, at.grapheme_idx as nat))
    }
}

/// Whether inserting a character at `at` changes the document.
pub open spec fn insert_char_changes(lines: Seq<Seq<char>>, at: Location) -> bool {
    at.line_idx <= lines.len()
}

/// Whether `at` lies at or behind the end of a line that another line
/// follows.
pub open spec fn joins_next_line(lines: Seq<Seq<char>>, at: Location) -> bool {
    let line = at.line_idx as int;
    &&& line + 1 < lines.len()
    &&& at.grapheme_idx >= grapheme_count(lines[line])
}

/// Whether `at` lies on a grapheme.
pub open spec fn is_on_grapheme(lines: Seq<Seq<char>>, at: Location) -> bool {
    let line = at.line_idx as int;
    &&& line < lines.len()
    &&& at.grapheme_idx < grapheme_count(lines[line])
}

/// The document after a deletion at `at`: at the end of a line the next
/// line is joined to it, within a line the grapheme at `at` goes, and
/// elsewhere nothing changes.
pub open spec fn after_delete(lines: Seq<Seq<char>>, at: Location) -> Seq<Seq<char>> {
    let line = at.line_idx as int;
    if joins_next_line(lines, at) {
        lines.update(line, lines[line] + lines[line + 1]).remove(line + 1)
    } else if is_on_grapheme(lines, at) {
        lines.update(line, deleted(lines[line], at.grapheme_idx as nat))
    } else {
        lines
    }
}

/// Whether a deletion at `at` changes the document.
pub open spec fn delete_changes(lines: Seq<Seq<char>>, at: Location) -> bool {
    joins_next_line(lines, at) || is_on_grapheme(lines, at)
}

/// The document after a line break is inserted at `at`: the line is cut
/// there and what was cut off becomes the next line. In the line after
/// the last one, an empty line is added; beyond that nothing changes.
pub open spec fn after_insert_newline(lines: Seq<Seq<char>>, at: Location) -> Seq<Seq<char>> {
    let line = at.line_idx as int;
    if line > lines.len() {
        lines
    } else if line == lines.len() {
        lines.push(Seq::empty())
    } else {
        lines.update(line, split_head(lines[line], at.grapheme_idx as nat)).insert(
            line + 1,
            split_tail(lines[line], at.grapheme_idx as nat),
        )
    }
}

/// Whether inserting a line break at `at` changes the document.
pub open spec fn insert_newline_changes(lines: Seq<Seq<char>>, at: Location) -> bool {
    at.line_idx <= lines.len()
}

/// The first occurrence of `query` found by looking through line `line`
/// from grapheme `grapheme` on and then through each later line from its
/// start.
pub open spec fn scan_forward(lines: Seq<Seq<char>>, query: Seq<char>, line: nat, grapheme: nat)
    -> Option<Location>
    decreases lines.len() - line,
{
    if line >= lines.len() {
        None
    } else {
        match search_forward(lines[line as int], query, grapheme) {
            Some(found) => Some(
                Location { line_idx: line as usize, grapheme_idx: found as usize },
            ),
            None => scan_forward(lines, query, line + 1, 0),
        }
    }
}

/// The last occurrence of `query` found by looking through what stands
/// before grapheme `grapheme` of line `line` and then through each earlier
/// line, whole.
pub open spec fn scan_backward(lines: Seq<Seq<char>>, query: Seq<char>, line: nat, grapheme: nat)
    -> Option<Location>
    decreases line,
{
    if line >= lines.len() {
        None
    } else {
        match search_backward(lines[line as int], query, grapheme) {
            Some(found) => Some(
                Location { line_idx: line as usize, grapheme_idx: found as usize },
            ),
            None => if line == 0 {
                None
            } else {
                scan_backward(
                    lines,
                    query,
                    (line - 1) as nat,
                    grapheme_count(lines[line - 1]),
                )
            },
        }
    }
}

/// The first occurrence of `query` at or after `from`, in document
/// order. The search ends with the last line.
pub open spec fn find_forward(lines: Seq<Seq<char>>, query: Seq<char>, from: Location) -> Option<
    Location,
> {
    scan_forward(lines, query, from.line_idx as nat, from.grapheme_idx as nat)
}

/// The last occurrence of `query` that ends before `from`. The search
/// ends with the first line. From beyond the last line it begins at the
/// end of the last line.
pub open spec fn find_backward(lines: Seq<Seq<char>>, query: Seq<char>, from: Location) -> Option<
    Location,
> {
    if from.line_idx < lines.len() {
        scan_backward(lines, query, from.line_idx as nat, from.grapheme_idx as nat)
    } else if lines.len() == 0 {
        None
    } else {
        scan_backward(
            lines,
            query,
            (lines.len() - 1) as nat,
            grapheme_count(lines[lines.len() - 1]),
        )
    }
}

/// What a scan through the document finds is a place of the document.
pub proof fn lemma_scan_finds_valid_location(
    lines: Seq<Seq<char>>,
    query: Seq<char>,
    line: nat,
    grapheme: nat,
)
    requires
        lines.len() <= usize::MAX,
    ensures
        match scan_forward(lines, query, line, grapheme) {
            Some(found) => is_valid(lines, found),
            None => true,
        },
        match scan_backward(lines, query, line, grapheme) {
            Some(found) => is_valid(lines, found),
            None => true,
        },
{
    lemma_scan_forward_finds_valid_location(lines, query, line, grapheme);
    lemma_scan_backward_finds_valid_location(lines, query, line, grapheme);
}

proof fn lemma_scan_forward_finds_valid_location(
    lines: Seq<Seq<char>>,
    query: Seq<char>,
    line: nat,
    grapheme: nat,
)
    requires
        lines.len() <= usize::MAX,
    ensures
        match scan_forward(lines, query, line, grapheme) {
            Some(found) => is_valid(lines, found),
            None => true,
        },
    decreases lines.len() - line,
{
    if line < lines.len() {
        lemma_search_answers_in_range(lines[line as int], query, grapheme);
        lemma_scan_forward_finds_valid_location(lines, query, line + 1, 0);
    }
}

proof fn lemma_scan_backward_finds_valid_location(
    lines: Seq<Seq<char>>,
    query: Seq<char>,
    line: nat,
    grapheme: nat,
)
    requires
        lines.len() <= usize::MAX,
    ensures
        match scan_backward(lines, query, line, grapheme) {
            Some(found) => is_valid(lines, found),
            None => true,
        },
    decreases line,
{
    if line < lines.len() {
        lemma_search_answers_in_range(lines[line as int], query, grapheme);
        if line > 0 {
            lemma_scan_backward_finds_valid_location(
                lines,
                query,
                (line - 1) as nat,
                grapheme_count(lines[line - 1]),
            );
        }
    }
}

/// The text between `start` and `end`, where `end` is the place of a line
/// feed or the end of `text`: a carriage return just before the line feed
/// belongs to the terminator.
pub open spec fn line_between(text: Seq<char>, start: int, end: int) -> Seq<char> {
    if end < text.len() && start < end && text[end - 1] == '\r' {
        text.subrange(start, end - 1)
    } else {
        text.subrange(start, end)
    }
}

/// The lines of `text` from the line that begins at `line_start` on, as a
/// reader finds them who has come as far as `i`.
pub open spec fn lines_from(text: Seq<char>, line_start: int, i: int) -> Seq<Seq<char>>
    decreases text.len() - i,
{
    if i < 0 || i >= text.len() {
        if 0 <= line_start < text.len() {
            seq![text.subrange(line_start, text.len() as int)]
        } else {
            Seq::empty()
        }
    } else if text[i] == '\n' {
        seq![line_between(text, line_start, i)] + lines_from(text, i + 1, i + 1)
    } else {
        lines_from(text, line_start, i + 1)
    }
}

/// The lines of `text`: what stands between line feeds, without the
/// terminators. A last line needs no terminator, and an empty text has no
/// line.
pub open spec fn split_lines(text: Seq<char>) -> Seq<Seq<char>> {
    lines_from(text, 0, 0)
}

/// The text of a document on disk: each line followed by a line feed.
pub open spec fn joined(lines: Seq<Seq<char>>) -> Seq<char>
    decreases lines.len(),
{
    if lines.len() == 0 {
        Seq::empty()
    } else {
        joined(lines.drop_last()) + lines.last() + seq!['\n']
    }
}

/// Whether `line` holds no line feed.
pub open spec fn is_single_line(line: Seq<char>) -> bool {
    forall|j: int| 0 <= j < line.len() ==> #[trigger] line[j] != '\n'
}

/// No line that a reader finds from `i` on holds a line feed, where the
/// line begun at `line_start` holds none so far.
pub proof fn lemma_lines_from_are_single(text: Seq<char>, line_start: int, i: int)
    requires
        0 <= line_start <= i <= text.len(),
        forall|j: int| line_start <= j < i ==> #[trigger] text[j] != '\n',
    ensures
        forall|k: int|
            0 <= k < lines_from(text, line_start, i).len() ==> is_single_line(
                #[trigger] lines_from(text, line_start, i)[k],
            ),
    decreases text.len() - i,
{
    if i >= text.len() {
        if line_start < text.len() {
            assert(is_single_line(text.subrange(line_start, text.len() as int)));
        }
    } else if text[i] == '\n' {
        lemma_lines_from_are_single(text, i + 1, i + 1);
        let first = line_between(text, line_start, i);
        let rest = lines_from(text, i + 1, i + 1);
        assert(is_single_line(first));
        assert forall|k: int| 0 <= k < (seq![first] + rest).len() implies is_single_line(
            #[trigger] (seq![first] + rest)[k],
        ) by {
            if k > 0 {
                assert((seq![first] + rest)[k] == rest[k - 1]);
            }
        }
    } else {
        lemma_lines_from_are_single(text, line_start, i + 1);
        assert(lines_from(text, line_start, i) == lines_from(text, line_start, i + 1));
    }
}

/// No line of a text holds a line feed.
pub proof fn lemma_split_lines_are_single(text: Seq<char>)
    ensures
        forall|k: int|
            0 <= k < split_lines(text).len() ==> is_single_line(#[trigger] split_lines(text)[k]),
{
    lemma_lines_from_are_single(text, 0, 0);
}

/// Whether `line` comes back as it is when it is written and read again:
/// it holds no line feed and does not end in a carriage return.
pub open spec fn is_plain_line(line: Seq<char>) -> bool {
    &&& is_single_line(line)
    &&& line.len() > 0 ==> line.last() != '\r'
}

/// Text put before a text does not change the lines found in it.
proof fn lemma_lines_from_shift(before: Seq<char>, text: Seq<char>, line_start: int, i: int)
    requires
        0 <= line_start <= i <= text.len(),
    ensures
        lines_from(before + text, before.len() + line_start, before.len() + i) == lines_from(
            text,
            line_start,
            i,
        ),
    decreases text.len() - i,
{
    let whole = before + text;
    let offset = before.len() as int;
    if i >= text.len() {
        if line_start < text.len() {
            assert(whole.subrange(offset + line_start, whole.len() as int) =~= text.subrange(
                line_start,
                text.len() as int,
            ));
        }
    } else {
        if text[i] == '\n' {
            lemma_lines_from_shift(before, text, i + 1, i + 1);
            if line_start < i {
                assert(whole.subrange(offset + line_start, offset + i - 1) =~= text.subrange(
                    line_start,
                    i - 1,
                ));
            }
            assert(whole.subrange(offset + line_start, offset + i) =~= text.subrange(
                line_start,
                i,
            ));
            assert(line_between(whole, offset + line_start, offset + i) == line_between(
                text,
                line_start,
                i,
            ));
        } else {
            lemma_lines_from_shift(before, text, line_start, i + 1);
        }
    }
}

/// The lines of a text that ends with a line feed, followed by more text,
/// are the lines of the one and then the lines of the other.
proof fn lemma_lines_from_concat(text: Seq<char>, more: Seq<char>, line_start: int, i: int)
    requires
        0 <= line_start <= i <= text.len(),
        text.len() > 0 ==> text.last() == '\n',
        forall|j: int| line_start <= j < i ==> #[trigger] text[j] != '\n',
    ensures
        lines_from(text + more, line_start, i) == lines_from(text, line_start, i) + split_lines(
            more,
        ),
    decreases text.len() - i,
{
    let whole = text + more;
    if i >= text.len() {
        lemma_lines_from_shift(text, more, 0, 0);
    } else {
        if text[i] == '\n' {
            lemma_lines_from_concat(text, more, i + 1, i + 1);
            let first = line_between(text, line_start, i);
            assert(line_between(whole, line_start, i) == first);
            let rest = lines_from(text, i + 1, i + 1);
            assert(seq![first] + (rest + split_lines(more)) =~= (seq![first] + rest)
                + split_lines(more));
        } else {
            lemma_lines_from_concat(text, more, line_start, i + 1);
        }
    }
}

/// A plain line followed by a line feed reads as that line alone.
proof fn lemma_lines_of_one_line(line: Seq<char>, i: int)
    requires
        is_plain_line(line),
        0 <= i <= line.len(),
    ensures
        lines_from(line.push('\n'), 0, i) == seq![line],
    decreases line.len() - i,
{
    let text = line.push('\n');
    if i < line.len() {
        lemma_lines_of_one_line(line, i + 1);
    } else {
        assert(text.subrange(0, i) =~= line);
        assert(lines_from(text, i + 1, i + 1) =~= Seq::<Seq<char>>::empty());
    }
}

/// What is written for a document is empty or ends with a line feed.
proof fn lemma_joined_is_terminated(lines: Seq<Seq<char>>)
    ensures
        joined(lines).len() > 0 ==> joined(lines).last() == '\n',
{
}

/// A document of plain lines that is written to disk and read again is
/// the same document.
pub proof fn lemma_written_document_reads_back(lines: Seq<Seq<char>>)
    requires
        forall|k: int| 0 <= k < lines.len() ==> is_plain_line(#[trigger] lines[k]),
    ensures
        split_lines(joined(lines)) == lines,
    decreases lines.len(),
{
    if lines.len() > 0 {
        let init = lines.drop_last();
        let last = lines.last();
        lemma_written_document_reads_back(init);
        lemma_joined_is_terminated(init);
        assert(joined(lines) =~= joined(init) + last.push('\n'));
        lemma_lines_from_concat(joined(init), last.push('\n'), 0, 0);
        lemma_lines_of_one_line(last, 0);
    }
}

} // verus!
