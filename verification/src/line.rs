//! A single line of text and its derived display model.
//!
//! A [`Line`] keeps the text as a string and, beside it, one fragment per
//! grapheme cluster. The fragments are rebuilt from the text after every
//! change, so they always describe the text as it is.

use crate::text::{
    cell_width, clamp, cluster_from, columns, deleted, find_from, grapheme_at, grapheme_count,
    inserted, insertion_point, is_blank, last_match, lemma_cluster_in_text,
    lemma_empty_text_has_no_cluster,
    lemma_columns_monotonic, lemma_columns_saturate, lemma_start_is_prefix, lemma_start_step,
    lemma_visible_rest, match_step, matches_at, offset_of, partitions, replacement_of,
    search_backward, search_forward, split_head, split_tail, start_of, to_chars, visible,
    visible_prefix, width, width_until, without_last,
};
use crate::unicode::{
    char_is_control, char_is_whitespace, grapheme_clusters, is_whitespace, push_char,
    split_graphemes, str_width, texts_of,
};
use std::ops::Range;
use vstd::prelude::*;

verus! {

/// The number of columns a grapheme takes on screen.
#[derive(Clone, Copy, Debug, PartialEq, Eq, Structural)]
pub enum GraphemeWidth {
    /// One column.
    Half,
    /// Two columns.
    Full,
}

impl GraphemeWidth {
    /// The width in columns.
    pub open spec fn columns(self) -> nat {
        match self {
            GraphemeWidth::Half => 1,
            GraphemeWidth::Full => 2,
        }
    }

    /// The column after a cell of this width that begins at `other`,
    /// stopping at `usize::MAX`.
    pub fn saturating_add(self, other: usize) -> (sum: usize)
        ensures
            sum == clamp(other as nat + self.columns()),
    {
        match self {
            GraphemeWidth::Half => other.saturating_add(1),
            GraphemeWidth::Full => other.saturating_add(2),
        }
    }
}

/// What the line knows of one grapheme cluster.
struct TextFragment {
    /// The cluster itself.
    grapheme: String,
    /// The number of columns it takes on screen.
    rendered_width: GraphemeWidth,
    /// The glyph shown in its place, if it is not shown as it is.
    replacement: Option<char>,
    /// The number of characters that stand before it in the line.
    start: usize,
}

impl TextFragment {
    /// Whether this fragment describes cluster `i` of `clusters`.
    spec fn describes(&self, clusters: Seq<Seq<char>>, i: int) -> bool {
        &&& self.grapheme@ == clusters[i]
        &&& self.rendered_width.columns() == cell_width(clusters[i])
        &&& self.replacement == replacement_of(clusters[i])
        &&& self.start == start_of(clusters, i)
    }
}

/// Whether `fragments` describe, one by one, the clusters of `text`.
spec fn fragments_of(fragments: Seq<TextFragment>, text: Seq<char>) -> bool {
    let clusters = grapheme_clusters(text);
    &&& partitions(clusters, text)
    &&& fragments.len() == clusters.len()
    &&& forall|i: int| 0 <= i < fragments.len() ==> (#[trigger] fragments[i]).describes(clusters, i)
}

/// A line of text, without its terminator.
pub struct Line {
    fragments: Vec<TextFragment>,
    string: String,
}

impl View for Line {
    type V = Seq<char>;

    /// The text of the line.
    closed spec fn view(&self) -> Seq<char> {
        self.string@
    }
}

impl Line {
    /// The fragments describe the text, and the clusters of the text cut it
    /// into non-empty pieces.
    #[verifier::type_invariant]
    pub closed spec fn wf(&self) -> bool {
        fragments_of(self.fragments@, self.string@)
    }

    /// The clusters of a line cut its text into non-empty pieces: joined
    /// they give the text back.
    pub proof fn lemma_wf_partitions(self)
        requires
            self.wf(),
        ensures
            partitions(grapheme_clusters(self@), self@),
            self@.len() == 0 ==> grapheme_count(self@) == 0,
    {
        if self@.len() == 0 {
            assert(self@ =~= Seq::<char>::empty());
            lemma_empty_text_has_no_cluster(grapheme_clusters(self@));
        }
    }

    /// Builds the line that holds `line_str`.
    pub fn from(line_str: &str) -> (line: Line)
        ensures
            line@ == line_str@,
            line.wf(),
    {
        let fragments = Self::str_to_fragments(line_str);
        Line { fragments, string: String::from_str(line_str) }
    }

    /// The text of the line as a string of its own.
    pub fn to_string(&self) -> (text: String)
        ensures
            text@ == self@,
    {
        self.string.clone()
    }

    fn str_to_fragments(line_str: &str) -> (fragments: Vec<TextFragment>)
        ensures
            fragments_of(fragments@, line_str@),
    {
        let clusters = split_graphemes(line_str);
        let total = line_str.unicode_len();
        let ghost parts = grapheme_clusters(line_str@);
        let mut fragments: Vec<TextFragment> = Vec::new();
        let mut start: usize = 0;
        let mut i: usize = 0;
        while i < clusters.len()
            invariant
                i <= clusters.len(),
                parts == texts_of(clusters@),
                parts == grapheme_clusters(line_str@),
                partitions(parts, line_str@),
                total == line_str@.len(),
                start == start_of(parts, i as int),
                fragments@.len() == i,
                forall|j: int| 0 <= j < i ==> (#[trigger] fragments@[j]).describes(parts, j),
            decreases clusters.len() - i,
        {
            let grapheme = clusters[i].clone();
            let replacement = Self::get_replacement_character(grapheme.as_str());
            let rendered_width = match replacement {
                Some(_) => GraphemeWidth::Half,
                None => {
                    if str_width(grapheme.as_str()) <= 1 {
                        GraphemeWidth::Half
                    } else {
                        GraphemeWidth::Full
                    }
                },
            };
            let length = grapheme.as_str().unicode_len();
            proof {
                lemma_start_step(parts, i as int);
                lemma_start_is_prefix(parts, i as int + 1);
            }
            fragments.push(TextFragment { grapheme, rendered_width, replacement, start });
            start = start + length;
            i = i + 1;
        }
        fragments
    }

    fn get_replacement_character(for_str: &str) -> (replacement: Option<char>)
        ensures
            replacement == replacement_of(for_str@),
    {
        let width = str_width(for_str);
        let length = for_str.unicode_len();
        if length == 1 && for_str.get_char(0) == ' ' {
            assert(for_str@ =~= seq![' ']);
            return None;
        }
        if length == 1 && for_str.get_char(0) == '\t' {
            assert(for_str@ =~= seq!['\t']);
            return Some(' ');
        }
        assert(for_str@ != seq![' '] && for_str@ != seq!['\t']);
        if width > 0 && Self::is_blank_str(for_str) {
            Some('␣')
        } else if width == 0 {
            if length == 1 && char_is_control(for_str.get_char(0)) {
                Some('▯')
            } else {
                Some('·')
            }
        } else {
            None
        }
    }

    fn is_blank_str(text: &str) -> (blank: bool)
        ensures
            blank == is_blank(text@),
    {
        let length = text.unicode_len();
        let mut i: usize = 0;
        while i < length
            invariant
                i <= length,
                length == text@.len(),
                forall|j: int| 0 <= j < i ==> is_whitespace(#[trigger] text@[j]),
            decreases length - i,
        {
            if !char_is_whitespace(text.get_char(i)) {
                return false;
            }
            i = i + 1;
        }
        true
    }

    /// The number of grapheme clusters in the line.
    pub fn grapheme_count(&self) -> (count: usize)
        ensures
            count == grapheme_count(self@),
    {
        proof {
            use_type_invariant(self);
        }
        self.fragments.len()
    }

    /// The column at which grapheme `grapheme_idx` begins: the widths of
    /// the graphemes before it, added up (of all of them where the index is
    /// past the end).
    pub fn width_until(&self, grapheme_idx: usize) -> (columns: usize)
        ensures
            columns == width_until(self@, grapheme_idx as nat),
    {
        proof {
            use_type_invariant(self);
        }
        let ghost parts = grapheme_clusters(self@);
        let mut sum: usize = 0;
        let mut i: usize = 0;
        while i < self.fragments.len() && i < grapheme_idx
            invariant
                i <= self.fragments.len(),
                i <= grapheme_idx,
                parts == grapheme_clusters(self@),
                fragments_of(self.fragments@, self.string@),
                sum == clamp(columns(parts, i as nat)),
            decreases self.fragments.len() - i,
        {
            sum = self.fragments[i].rendered_width.saturating_add(sum);
            i = i + 1;
        }
        proof {
            if i < grapheme_idx {
                lemma_columns_saturate(parts, grapheme_idx as nat);
            }
        }
        sum
    }

    /// The grapheme at index `at`, where the line has one.
    pub fn cluster(&self, at: usize) -> (cluster: Option<String>)
        ensures
            match cluster {
                Some(cluster) => {
                    &&& at < grapheme_count(self@)
                    &&& cluster@ == grapheme_clusters(self@)[at as int]
                },
                None => at >= grapheme_count(self@),
            },
    {
        proof {
            use_type_invariant(self);
        }
        if at < self.fragments.len() {
            Some(self.fragments[at].grapheme.clone())
        } else {
            None
        }
    }

    /// The number of characters that stand before the grapheme at index
    /// `at`, where the line has one.
    pub fn cluster_start(&self, at: usize) -> (start: Option<usize>)
        ensures
            match start {
                Some(start) => {
                    &&& at < grapheme_count(self@)
                    &&& start == start_of(grapheme_clusters(self@), at as int)
                },
                None => at >= grapheme_count(self@),
            },
    {
        proof {
            use_type_invariant(self);
        }
        if at < self.fragments.len() {
            Some(self.fragments[at].start)
        } else {
            None
        }
    }

    /// Whether `character`, inserted before the grapheme at index `at`,
    /// becomes a grapheme of its own at that index, without joining a
    /// neighbour. The line itself stays as it is.
    pub fn inserted_stands_alone(&self, character: char, at: usize) -> (alone: bool)
        ensures
            alone == stands_alone(self@, character, at as nat),
    {
        let point = match self.cluster_start(at) {
            Some(start) => start,
            None => self.string.as_str().unicode_len(),
        };
        let mut after = self.clone();
        after.insert_char(character, at);
        match (after.cluster(at), after.cluster_start(at)) {
            (Some(cluster), Some(start)) => {
                let length = cluster.as_str().unicode_len();
                let single = length == 1 && cluster.as_str().get_char(0) == character;
                assert(single <==> cluster@ =~= seq![character]);
                start == point && single
            },
            _ => false,
        }
    }

    /// The number of columns the whole line takes.
    pub fn width(&self) -> (columns: usize)
        ensures
            columns == width(self@),
    {
        self.width_until(self.grapheme_count())
    }

    /// Renders the display columns from `range.start` up to `range.end`.
    /// A grapheme whose cell the range cuts is shown as a clip marker.
    pub fn get_visible_graphemes(&self, range: Range<usize>) -> (result: String)
        ensures
            result@ == visible(self@, range.start, range.end),
    {
        let mut result = String::new();
        if range.start >= range.end {
            return result;
        }
        proof {
            use_type_invariant(self);
        }
        let ghost parts = grapheme_clusters(self@);
        let mut current_pos: usize = 0;
        let mut i: usize = 0;
        while i < self.fragments.len() && current_pos < range.end
            invariant
                i <= self.fragments.len(),
                range.start < range.end,
                parts == grapheme_clusters(self@),
                fragments_of(self.fragments@, self.string@),
                current_pos == clamp(columns(parts, i as nat)),
                result@ == visible_prefix(parts, i as nat, range.start, range.end),
            decreases self.fragments.len() - i,
        {
            let fragment = &self.fragments[i];
            let fragment_end = fragment.rendered_width.saturating_add(current_pos);
            if fragment_end > range.start {
                if fragment_end > range.end || current_pos < range.start {
                    push_char(&mut result, '⋯');
                } else if let Some(glyph) = fragment.replacement {
                    push_char(&mut result, glyph);
                } else {
                    result.append(fragment.grapheme.as_str());
                }
            }
            current_pos = fragment_end;
            i = i + 1;
        }
        proof {
            if i < self.fragments.len() {
                lemma_visible_rest(
                    parts,
                    i as nat,
                    self.fragments.len() as nat,
                    range.start,
                    range.end,
                );
            }
        }
        result
    }

    /// Inserts `character` before the grapheme at index `at`; where there
    /// is no such grapheme, at the end of the line.
    pub fn insert_char(&mut self, character: char, at: usize)
        ensures
            final(self)@ == inserted(old(self)@, character, at as nat),
            final(self).wf(),
    {
        proof {
            use_type_invariant(&*self);
        }
        let text = self.string.as_str();
        let length = text.unicode_len();
        let point = if at < self.fragments.len() {
            proof {
                lemma_start_is_prefix(grapheme_clusters(self.string@), at as int);
            }
            self.fragments[at].start
        } else {
            length
        };
        let mut result = String::from_str(text.substring_char(0, point));
        push_char(&mut result, character);
        result.append(text.substring_char(point, length));
        *self = Line::from(result.as_str());
    }

    /// Appends `character` to the line.
    pub fn append_char(&mut self, character: char)
        ensures
            final(self)@ == old(self)@.push(character),
            final(self).wf(),
    {
        let count = self.grapheme_count();
        self.insert_char(character, count);
    }

    /// Removes the grapheme at index `at`; does nothing where there is no
    /// such grapheme.
    pub fn delete(&mut self, at: usize)
        ensures
            final(self)@ == deleted(old(self)@, at as nat),
            final(self).wf(),
    {
        proof {
            use_type_invariant(&*self);
        }
        if at < self.fragments.len() {
            let text = self.string.as_str();
            let length = text.unicode_len();
            let start = self.fragments[at].start;
            let width = self.fragments[at].grapheme.as_str().unicode_len();
            proof {
                lemma_cluster_in_text(grapheme_clusters(self.string@), at as int);
            }
            let end = start + width;
            let mut result = String::from_str(text.substring_char(0, start));
            result.append(text.substring_char(end, length));
            *self = Line::from(result.as_str());
        }
    }

    /// Removes the last grapheme; on an empty line, does nothing.
    pub fn delete_last(&mut self)
        ensures
            final(self)@ == without_last(old(self)@),
            final(self).wf(),
    {
        let count = self.grapheme_count();
        self.delete(count.saturating_sub(1));
    }

    /// Appends the text of `other` to this line.
    pub fn append(&mut self, other: &Line)
        ensures
            final(self)@ == old(self)@ + other@,
            final(self).wf(),
    {
        let mut result = self.string.clone();
        result.append(other.string.as_str());
        *self = Line::from(result.as_str());
    }

    /// Cuts the line before the grapheme at index `at` and returns what
    /// was cut off. Where there is no such grapheme the line stays whole
    /// and the result is empty.
    pub fn split(&mut self, at: usize) -> (remainder: Line)
        ensures
            final(self)@ == split_head(old(self)@, at as nat),
            remainder@ == split_tail(old(self)@, at as nat),
            at >= grapheme_count(old(self)@) ==> grapheme_count(remainder@) == 0,
            final(self).wf(),
            remainder.wf(),
    {
        proof {
            use_type_invariant(&*self);
        }
        if at < self.fragments.len() {
            let text = self.string.as_str();
            let length = text.unicode_len();
            let point = self.fragments[at].start;
            proof {
                lemma_start_is_prefix(grapheme_clusters(self.string@), at as int);
            }
            let remainder = Line::from(text.substring_char(point, length));
            let head = Line::from(text.substring_char(0, point));
            *self = head;
            remainder
        } else {
            let remainder = Line::default();
            proof {
                remainder.lemma_wf_partitions();
            }
            remainder
        }
    }

    /// The index of the first grapheme that begins at or after character
    /// offset `offset`; 0 where there is none.
    fn offset_to_grapheme_idx(&self, offset: usize) -> (grapheme_idx: usize)
        ensures
            grapheme_idx == grapheme_at(self@, offset as nat),
    {
        proof {
            use_type_invariant(self);
        }
        let ghost parts = grapheme_clusters(self@);
        let mut i: usize = 0;
        while i < self.fragments.len()
            invariant
                i <= self.fragments.len(),
                parts == grapheme_clusters(self@),
                fragments_of(self.fragments@, self.string@),
                cluster_from(parts, offset as nat, 0) == cluster_from(
                    parts,
                    offset as nat,
                    i as nat,
                ),
            decreases self.fragments.len() - i,
        {
            if self.fragments[i].start >= offset {
                return i;
            }
            i = i + 1;
        }
        0
    }

    /// The character offset at which the grapheme at `grapheme_idx`
    /// begins; 0 where there is no such grapheme.
    fn grapheme_idx_to_offset(&self, grapheme_idx: usize) -> (offset: usize)
        ensures
            offset == offset_of(self@, grapheme_idx as nat),
    {
        proof {
            use_type_invariant(self);
        }
        if grapheme_idx < self.fragments.len() {
            self.fragments[grapheme_idx].start
        } else {
            0
        }
    }

    /// Looks for `query` from the grapheme at `from_grapheme_idx` on and
    /// returns the grapheme at which the first occurrence begins.
    pub fn search_forward(&self, query: &str, from_grapheme_idx: usize) -> (found: Option<usize>)
        ensures
            match found {
                Some(grapheme_idx) => search_forward(self@, query@, from_grapheme_idx as nat)
                    == Some(grapheme_idx as nat),
                None => search_forward(self@, query@, from_grapheme_idx as nat) is None,
            },
    {
        if from_grapheme_idx == self.grapheme_count() {
            return None;
        }
        let start = self.grapheme_idx_to_offset(from_grapheme_idx);
        let hay = to_chars(self.string.as_str());
        let needle = to_chars(query);
        match find_in(&hay, &needle, start) {
            Some(offset) => Some(self.offset_to_grapheme_idx(offset)),
            None => None,
        }
    }

    /// Looks for `query` in what stands before the grapheme at
    /// `from_grapheme_idx` and returns the grapheme at which the last
    /// occurrence begins.
    pub fn search_backward(&self, query: &str, from_grapheme_idx: usize) -> (found: Option<usize>)
        ensures
            match found {
                Some(grapheme_idx) => search_backward(self@, query@, from_grapheme_idx as nat)
                    == Some(grapheme_idx as nat),
                None => search_backward(self@, query@, from_grapheme_idx as nat) is None,
            },
    {
        if from_grapheme_idx == 0 {
            return None;
        }
        let text = self.string.as_str();
        let limit = if from_grapheme_idx == self.grapheme_count() {
            text.unicode_len()
        } else {
            self.grapheme_idx_to_offset(from_grapheme_idx)
        };
        proof {
            use_type_invariant(self);
            if from_grapheme_idx < self.fragments.len() {
                lemma_start_is_prefix(grapheme_clusters(self.string@), from_grapheme_idx as int);
            }
        }
        let hay = to_chars(text.substring_char(0, limit));
        let needle = to_chars(query);
        match find_last_in(&hay, &needle) {
            Some(offset) => Some(self.offset_to_grapheme_idx(offset)),
            None => None,
        }
    }
}

impl Clone for Line {
    fn clone(&self) -> (line: Line)
        ensures
            line@ == self@,
            line.wf(),
    {
        Line::from(self.string.as_str())
    }
}

impl Default for Line {
    fn default() -> (line: Line)
        ensures
            line@ == Seq::<char>::empty(),
            grapheme_count(line@) == 0,
            line.wf(),
    {
        let line = Line::from("");
        proof {
            reveal_strlit("");
            line.lemma_wf_partitions();
        }
        line
    }
}

/// Whether `needle` stands in `hay` at offset `at`.
fn matches_in(hay: &Vec<char>, needle: &Vec<char>, at: usize) -> (matches: bool)
    ensures
        matches == matches_at(hay@, needle@, at as int),
{
    if needle.len() > hay.len() || at > hay.len() - needle.len() {
        return false;
    }
    let mut i: usize = 0;
    while i < needle.len()
        invariant
            i <= needle.len(),
            at + needle.len() <= hay.len(),
            forall|j: int| 0 <= j < i ==> hay@[at + j] == needle@[j],
        decreases needle.len() - i,
    {
        if hay[at + i] != needle[i] {
            return false;
        }
        i = i + 1;
    }
    assert(hay@.subrange(at as int, at + needle.len()) =~= needle@);
    true
}

/// The first offset at or after `from` at which `needle` stands in `hay`.
fn find_in(hay: &Vec<char>, needle: &Vec<char>, from: usize) -> (found: Option<usize>)
    ensures
        match found {
            Some(offset) => find_from(hay@, needle@, from as int) == Some(offset as int),
            None => find_from(hay@, needle@, from as int) is None,
        },
{
    if needle.len() > hay.len() {
        return None;
    }
    let last = hay.len() - needle.len();
    let mut at: usize = from;
    while at <= last
        invariant
            from <= at,
            last + needle.len() == hay.len(),
            find_from(hay@, needle@, from as int) == find_from(hay@, needle@, at as int),
        decreases last + 1 - at,
    {
        if matches_in(hay, needle, at) {
            return Some(at);
        }
        if at == last {
            assert(find_from(hay@, needle@, at + 1) is None);
            return None;
        }
        at = at + 1;
    }
    None
}

/// An offset found, as a mathematical integer.
spec fn as_offset(found: Option<usize>) -> Option<int> {
    match found {
        Some(offset) => Some(offset as int),
        None => None,
    }
}

/// The last match of a scan for `needle` through `hay` that takes each
/// match as early as it can and goes on behind it.
fn find_last_in(hay: &Vec<char>, needle: &Vec<char>) -> (found: Option<usize>)
    ensures
        match found {
            Some(offset) => last_match(hay@, needle@, 0, None) == Some(offset as int),
            None => last_match(hay@, needle@, 0, None) is None,
        },
{
    if needle.len() > hay.len() {
        return None;
    }
    let last = hay.len() - needle.len();
    let step: usize = if needle.len() == 0 {
        1
    } else {
        needle.len()
    };
    let mut found: Option<usize> = None;
    let mut at: usize = 0;
    while at <= last
        invariant
            last + needle.len() == hay.len(),
            step == match_step(needle@),
            last_match(hay@, needle@, 0, None) == last_match(
                hay@,
                needle@,
                at as int,
                as_offset(found),
            ),
        decreases last + 1 - at,
    {
        if matches_in(hay, needle, at) {
            found = Some(at);
            if step > last - at {
                assert(last_match(hay@, needle@, at + step, Some(at as int)) == Some(at as int));
                return found;
            }
            at = at + step;
        } else {
            if at == last {
                assert(last_match(hay@, needle@, at + 1, as_offset(found))
                    == as_offset(found));
                return found;
            }
            at = at + 1;
        }
    }
    found
}

/// Whether `c`, inserted before grapheme `at` of `text`, becomes a grapheme
/// of its own at that index, without joining a neighbour.
pub open spec fn stands_alone(text: Seq<char>, c: char, at: nat) -> bool {
    let clusters = grapheme_clusters(inserted(text, c, at));
    &&& at < clusters.len()
    &&& clusters[at as int] == seq![c]
    &&& start_of(clusters, at as int) == insertion_point(text, at)
}

/// Inserting a character and deleting the grapheme at the same index
/// gives the line back, provided the character became a grapheme of its
/// own.
pub proof fn lemma_insert_then_delete(line: Line, c: char, at: nat)
    requires
        line.wf(),
        stands_alone(line@, c, at),
    ensures
        deleted(inserted(line@, c, at), at) == line@,
{
    if at < grapheme_count(line@) {
        lemma_start_is_prefix(grapheme_clusters(line@), at as int);
    }
}

/// Splitting a line and appending what was cut off gives the line back.
pub proof fn lemma_split_then_append(line: Line, at: nat)
    requires
        line.wf(),
    ensures
        split_head(line@, at) + split_tail(line@, at) == line@,
{
    if at < grapheme_count(line@) {
        lemma_start_is_prefix(grapheme_clusters(line@), at as int);
    }
}

/// Each grapheme moves the column on by the width of its cell, one or two
/// columns, as long as the column can be counted.
pub proof fn lemma_width_until_step(text: Seq<char>, n: nat)
    ensures
        n < grapheme_count(text) && width_until(text, n + 1) < usize::MAX ==> {
            &&& width_until(text, n + 1) - width_until(text, n) == cell_width(
                grapheme_clusters(text)[n as int],
            )
            &&& 1 <= width_until(text, n + 1) - width_until(text, n) <= 2
        },
{
}

/// The column of a grapheme never lies before that of an earlier one, and
/// the column behind the last grapheme is the width of the line.
pub proof fn lemma_width_until_monotonic(text: Seq<char>, m: nat, n: nat)
    requires
        m <= n,
    ensures
        width_until(text, m) <= width_until(text, n),
        width_until(text, n) <= width(text),
        width_until(text, grapheme_count(text)) == width(text),
{
    let clusters = grapheme_clusters(text);
    lemma_columns_monotonic(clusters, m, n);
    if n <= clusters.len() {
        lemma_columns_monotonic(clusters, n, clusters.len());
    } else {
        lemma_columns_saturate(clusters, n);
    }
}

} // verus!
