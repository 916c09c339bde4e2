//! Mathematical vocabulary for lines of text: clusters, columns and matches.
//!
//! Everything here is stated over sequences of characters. A text is cut
//! into grapheme clusters; each cluster occupies one or two terminal
//! columns and may be shown as a substitute glyph.

use crate::unicode::{display_width, grapheme_clusters, is_control, is_whitespace, push_char};
use vstd::prelude::*;

verus! {

/// The glyph shown in place of a cell that the visible range cuts.
pub open spec fn clip_marker() -> char {
    '⋯'
}

/// The glyph shown for a cluster of wide whitespace.
pub open spec fn blank_marker() -> char {
    '␣'
}

/// The glyph shown for a lone control character without width.
pub open spec fn control_marker() -> char {
    '▯'
}

/// The glyph shown for any other cluster without width.
pub open spec fn zero_width_marker() -> char {
    '·'
}

/// `count` spaces.
pub open spec fn spaces(count: nat) -> Seq<char> {
    Seq::new(count, |i: int| ' ')
}

/// `n`, or `usize::MAX` where `n` does not fit.
pub open spec fn clamp(n: nat) -> usize {
    if n > usize::MAX {
        usize::MAX
    } else {
        n as usize
    }
}

/// Whether every character of `cluster` is whitespace.
pub open spec fn is_blank(cluster: Seq<char>) -> bool {
    forall|i: int| 0 <= i < cluster.len() ==> is_whitespace(#[trigger] cluster[i])
}

/// The glyph that stands in for `cluster` on screen, if it is not shown as
/// it is: a space for a tab, a marker for other whitespace that has width,
/// and a marker for what has no width at all.
pub open spec fn replacement_of(cluster: Seq<char>) -> Option<char> {
    if cluster == seq![' '] {
        None
    } else if cluster == seq!['\t'] {
        Some(' ')
    } else if display_width(cluster) > 0 && is_blank(cluster) {
        Some(blank_marker())
    } else if display_width(cluster) == 0 {
        if cluster.len() == 1 && is_control(cluster[0]) {
            Some(control_marker())
        } else {
            Some(zero_width_marker())
        }
    } else {
        None
    }
}

/// Whether `cluster` takes two columns: it is shown as it is and is wider
/// than one column.
pub open spec fn is_full_width(cluster: Seq<char>) -> bool {
    replacement_of(cluster) is None && display_width(cluster) > 1
}

/// The number of columns `cluster` takes on screen: one or two.
pub open spec fn cell_width(cluster: Seq<char>) -> nat {
    if is_full_width(cluster) {
        2
    } else {
        1
    }
}

/// What is printed for `cluster` when its cell is wholly visible.
pub open spec fn cell_text(cluster: Seq<char>) -> Seq<char> {
    match replacement_of(cluster) {
        Some(glyph) => seq![glyph],
        None => cluster,
    }
}

/// The number of characters that stand before cluster `i`.
pub open spec fn start_of(clusters: Seq<Seq<char>>, i: int) -> nat {
    clusters.take(i).flatten().len()
}

/// The number of columns taken by the first `n` clusters (by all of them
/// where there are fewer).
pub open spec fn columns(clusters: Seq<Seq<char>>, n: nat) -> nat
    decreases n,
{
    if n == 0 {
        0
    } else if n > clusters.len() {
        columns(clusters, (n - 1) as nat)
    } else {
        columns(clusters, (n - 1) as nat) + cell_width(clusters[n - 1])
    }
}

/// Whether `clusters` cuts `text` into consecutive non-empty pieces.
pub open spec fn partitions(clusters: Seq<Seq<char>>, text: Seq<char>) -> bool {
    &&& clusters.flatten() == text
    &&& forall|i: int| 0 <= i < clusters.len() ==> (#[trigger] clusters[i]).len() > 0
}

/// The number of grapheme clusters in `text`.
pub open spec fn grapheme_count(text: Seq<char>) -> nat {
    grapheme_clusters(text).len()
}

/// The column at which cluster `n` of `text` begins, clamped to `usize`.
pub open spec fn width_until(text: Seq<char>, n: nat) -> usize {
    clamp(columns(grapheme_clusters(text), n))
}

/// The number of columns `text` takes, clamped to `usize`.
pub open spec fn width(text: Seq<char>) -> usize {
    width_until(text, grapheme_count(text))
}

/// A text without a character has no cluster.
pub proof fn lemma_empty_text_has_no_cluster(clusters: Seq<Seq<char>>)
    requires
        partitions(clusters, Seq::empty()),
    ensures
        clusters.len() == 0,
{
    if clusters.len() > 0 {
        assert(clusters.flatten() == clusters.first() + clusters.drop_first().flatten());
        assert(clusters[0].len() > 0);
    }
}

/// Columns never shrink as more clusters are counted.
pub proof fn lemma_columns_monotonic(clusters: Seq<Seq<char>>, m: nat, n: nat)
    requires
        m <= n,
    ensures
        columns(clusters, m) <= columns(clusters, n),
    decreases n,
{
    if m < n {
        lemma_columns_monotonic(clusters, m, (n - 1) as nat);
    }
}

/// Counting past the last cluster adds nothing.
pub proof fn lemma_columns_saturate(clusters: Seq<Seq<char>>, n: nat)
    requires
        n >= clusters.len(),
    ensures
        columns(clusters, n) == columns(clusters, clusters.len()),
    decreases n,
{
    if n > clusters.len() {
        lemma_columns_saturate(clusters, (n - 1) as nat);
    }
}

/// The characters before cluster `i + 1` are those before cluster `i`
/// followed by cluster `i`.
pub proof fn lemma_start_step(clusters: Seq<Seq<char>>, i: int)
    requires
        0 <= i < clusters.len(),
    ensures
        clusters.take(i + 1).flatten() == clusters.take(i).flatten() + clusters[i],
        start_of(clusters, i + 1) == start_of(clusters, i) + clusters[i].len(),
{
    assert(clusters.take(i + 1) =~= clusters.take(i).push(clusters[i]));
    clusters.take(i).lemma_flatten_push(clusters[i]);
}

/// The characters before cluster `i` are a prefix of the whole text.
pub proof fn lemma_start_is_prefix(clusters: Seq<Seq<char>>, i: int)
    requires
        0 <= i <= clusters.len(),
    ensures
        start_of(clusters, i) <= clusters.flatten().len(),
        clusters.take(i).flatten() == clusters.flatten().take(start_of(clusters, i) as int),
    decreases clusters.len() - i,
{
    if i == clusters.len() {
        assert(clusters.take(i) =~= clusters);
    } else {
        lemma_start_is_prefix(clusters, i + 1);
        lemma_start_step(clusters, i);
    }
}

/// Cluster `i` stands in the text at its start.
pub proof fn lemma_cluster_in_text(clusters: Seq<Seq<char>>, i: int)
    requires
        0 <= i < clusters.len(),
    ensures
        start_of(clusters, i) + clusters[i].len() <= clusters.flatten().len(),
        clusters.flatten().subrange(
            start_of(clusters, i) as int,
            (start_of(clusters, i) + clusters[i].len()) as int,
        ) == clusters[i],
{
    lemma_start_step(clusters, i);
    lemma_start_is_prefix(clusters, i + 1);
    let longer = clusters.take(i + 1).flatten();
    let s = start_of(clusters, i) as int;
    assert(longer.subrange(s, s + clusters[i].len()) =~= clusters[i]);
}

/// What cluster `i` adds to the rendering of the columns from `start` up
/// to `end`: nothing where its cell lies outside, the clip marker where
/// the range cuts its cell, else what is printed for it.
pub open spec fn visible_piece(clusters: Seq<Seq<char>>, i: int, start: usize, end: usize) -> Seq<
    char,
> {
    let left = clamp(columns(clusters, i as nat));
    let right = clamp(columns(clusters, (i + 1) as nat));
    if left >= end || right <= start {
        Seq::empty()
    } else if right > end || left < start {
        seq![clip_marker()]
    } else {
        cell_text(clusters[i])
    }
}

/// What the first `n` clusters add to the rendering, in order.
pub open spec fn visible_prefix(clusters: Seq<Seq<char>>, n: nat, start: usize, end: usize) -> Seq<
    char,
>
    decreases n,
{
    if n == 0 {
        Seq::empty()
    } else {
        visible_prefix(clusters, (n - 1) as nat, start, end) + visible_piece(
            clusters,
            n - 1,
            start,
            end,
        )
    }
}

/// The rendering of the columns from `start` up to `end` of `text`.
pub open spec fn visible(text: Seq<char>, start: usize, end: usize) -> Seq<char> {
    if start >= end {
        Seq::empty()
    } else {
        visible_prefix(grapheme_clusters(text), grapheme_count(text), start, end)
    }
}

/// Clusters that begin at or after the end of the range add nothing.
pub proof fn lemma_visible_rest(clusters: Seq<Seq<char>>, m: nat, n: nat, start: usize, end: usize)
    requires
        m <= n,
        clamp(columns(clusters, m)) >= end,
    ensures
        visible_prefix(clusters, n, start, end) == visible_prefix(clusters, m, start, end),
    decreases n,
{
    if m < n {
        lemma_visible_rest(clusters, m, (n - 1) as nat, start, end);
        lemma_columns_monotonic(clusters, m, (n - 1) as nat);
        assert(visible_prefix(clusters, n, start, end) =~= visible_prefix(
            clusters,
            (n - 1) as nat,
            start,
            end,
        ));
    }
}

/// The character offset at which a character inserted at grapheme `at`
/// goes: where that grapheme begins, or the end of the text where there is
/// no such grapheme.
pub open spec fn insertion_point(text: Seq<char>, at: nat) -> nat {
    if at < grapheme_count(text) {
        start_of(grapheme_clusters(text), at as int)
    } else {
        text.len()
    }
}

/// `text` with `c` inserted before grapheme `at` (at the end where there
/// is no such grapheme).
pub open spec fn inserted(text: Seq<char>, c: char, at: nat) -> Seq<char> {
    let k = insertion_point(text, at) as int;
    text.take(k) + seq![c] + text.skip(k)
}

/// `text` without grapheme `at` (unchanged where there is no such
/// grapheme).
pub open spec fn deleted(text: Seq<char>, at: nat) -> Seq<char> {
    if at < grapheme_count(text) {
        let clusters = grapheme_clusters(text);
        let from = start_of(clusters, at as int) as int;
        text.take(from) + text.skip(from + clusters[at as int].len())
    } else {
        text
    }
}

/// `text` without its last grapheme (unchanged where it has none).
pub open spec fn without_last(text: Seq<char>) -> Seq<char> {
    if grapheme_count(text) == 0 {
        text
    } else {
        deleted(text, (grapheme_count(text) - 1) as nat)
    }
}

/// What stays of `text` when it is split before grapheme `at`.
pub open spec fn split_head(text: Seq<char>, at: nat) -> Seq<char> {
    if at < grapheme_count(text) {
        text.take(start_of(grapheme_clusters(text), at as int) as int)
    } else {
        text
    }
}

/// What is cut off `text` when it is split before grapheme `at`.
pub open spec fn split_tail(text: Seq<char>, at: nat) -> Seq<char> {
    if at < grapheme_count(text) {
        text.skip(start_of(grapheme_clusters(text), at as int) as int)
    } else {
        Seq::empty()
    }
}

/// Whether `needle` stands in `hay` at character offset `i`.
pub open spec fn matches_at(hay: Seq<char>, needle: Seq<char>, i: int) -> bool {
    &&& 0 <= i
    &&& i + needle.len() <= hay.len()
    &&& hay.subrange(i, i + needle.len()) == needle
}

/// The first offset at or after `from` at which `needle` stands in `hay`.
pub open spec fn find_from(hay: Seq<char>, needle: Seq<char>, from: int) -> Option<int>
    decreases hay.len() + 1 - from,
{
    if from < 0 || from + needle.len() > hay.len() {
        None
    } else if matches_at(hay, needle, from) {
        Some(from)
    } else {
        find_from(hay, needle, from + 1)
    }
}

/// How far a scan moves on after a match: past the match, and at least by
/// one character.
pub open spec fn match_step(needle: Seq<char>) -> int {
    if needle.len() == 0 {
        1
    } else {
        needle.len() as int
    }
}

/// The last of the matches that a scan from `from` finds when it takes
/// each match as early as it can and goes on behind it, so that matches do
/// not overlap; `found` where it finds none.
pub open spec fn last_match(hay: Seq<char>, needle: Seq<char>, from: int, found: Option<int>)
    -> Option<int>
    decreases hay.len() + 1 - from,
{
    if from < 0 || from + needle.len() > hay.len() {
        found
    } else if matches_at(hay, needle, from) {
        last_match(hay, needle, from + match_step(needle), Some(from))
    } else {
        last_match(hay, needle, from + 1, found)
    }
}

/// The first cluster from index `i` on that begins at or after character
/// offset `offset`.
pub open spec fn cluster_from(clusters: Seq<Seq<char>>, offset: nat, i: nat) -> Option<nat>
    decreases clusters.len() - i,
{
    if i >= clusters.len() {
        None
    } else if start_of(clusters, i as int) >= offset {
        Some(i)
    } else {
        cluster_from(clusters, offset, i + 1)
    }
}

/// The index of the first grapheme of `text` that begins at or after
/// character offset `offset`; 0 where there is none.
pub open spec fn grapheme_at(text: Seq<char>, offset: nat) -> nat {
    match cluster_from(grapheme_clusters(text), offset, 0) {
        Some(i) => i,
        None => 0,
    }
}

/// The character offset at which grapheme `at` of `text` begins; 0 where
/// there is no such grapheme.
pub open spec fn offset_of(text: Seq<char>, at: nat) -> nat {
    if at < grapheme_count(text) {
        start_of(grapheme_clusters(text), at as int)
    } else {
        0
    }
}

/// The grapheme at which the first occurrence of `query` at or after
/// grapheme `from` begins. There is none to look for at the end of the
/// line.
pub open spec fn search_forward(text: Seq<char>, query: Seq<char>, from: nat) -> Option<nat> {
    if from == grapheme_count(text) {
        None
    } else {
        match find_from(text, query, offset_of(text, from) as int) {
            Some(offset) => Some(grapheme_at(text, offset as nat)),
            None => None,
        }
    }
}

/// The length of the part of `text` that a backward search from grapheme
/// `from` looks at: what stands before that grapheme.
pub open spec fn backward_limit(text: Seq<char>, from: nat) -> nat {
    if from == grapheme_count(text) {
        text.len()
    } else {
        offset_of(text, from)
    }
}

/// The grapheme at which the last occurrence of `query` that ends before
/// grapheme `from` begins. There is none to look for at the start of the
/// line.
pub open spec fn search_backward(text: Seq<char>, query: Seq<char>, from: nat) -> Option<nat> {
    if from == 0 {
        None
    } else {
        match last_match(text.take(backward_limit(text, from) as int), query, 0, None) {
            Some(offset) => Some(grapheme_at(text, offset as nat)),
            None => None,
        }
    }
}

/// What `find_from` finds is a match at or after `from`, and no match
/// stands between `from` and it; where it finds nothing, there is no match
/// at or after `from`.
pub proof fn lemma_find_from_is_first(hay: Seq<char>, needle: Seq<char>, from: int)
    requires
        0 <= from,
    ensures
        match find_from(hay, needle, from) {
            Some(i) => from <= i && matches_at(hay, needle, i) && forall|j: int|
                from <= j < i ==> !matches_at(hay, needle, j),
            None => forall|j: int| from <= j ==> !matches_at(hay, needle, j),
        },
    decreases hay.len() + 1 - from,
{
    if from + needle.len() <= hay.len() && !matches_at(hay, needle, from) {
        lemma_find_from_is_first(hay, needle, from + 1);
    }
}

/// What `last_match` finds, if it is not the match handed in, is a match
/// at or after `from`.
pub proof fn lemma_last_match_is_match(
    hay: Seq<char>,
    needle: Seq<char>,
    from: int,
    found: Option<int>,
)
    requires
        0 <= from,
    ensures
        match last_match(hay, needle, from, found) {
            Some(i) => found == Some(i) || (from <= i && matches_at(hay, needle, i)),
            None => found is None && forall|j: int| from <= j ==> !matches_at(hay, needle, j),
        },
    decreases hay.len() + 1 - from,
{
    if from + needle.len() <= hay.len() {
        if matches_at(hay, needle, from) {
            lemma_last_match_is_match(hay, needle, from + match_step(needle), Some(from));
        } else {
            lemma_last_match_is_match(hay, needle, from + 1, found);
        }
    }
}

/// What `cluster_from` finds is the index of a cluster.
pub proof fn lemma_cluster_from_in_range(clusters: Seq<Seq<char>>, offset: nat, i: nat)
    ensures
        match cluster_from(clusters, offset, i) {
            Some(found) => i <= found < clusters.len(),
            None => true,
        },
    decreases clusters.len() - i,
{
    if i < clusters.len() && start_of(clusters, i as int) < offset {
        lemma_cluster_from_in_range(clusters, offset, i + 1);
    }
}

/// A search in a line answers with a grapheme of the line, or with 0.
pub proof fn lemma_search_answers_in_range(text: Seq<char>, query: Seq<char>, from: nat)
    ensures
        match search_forward(text, query, from) {
            Some(found) => found <= grapheme_count(text),
            None => true,
        },
        match search_backward(text, query, from) {
            Some(found) => found <= grapheme_count(text),
            None => true,
        },
{
    let clusters = grapheme_clusters(text);
    assert forall|offset: nat| grapheme_at(text, offset) <= clusters.len() by {
        lemma_cluster_from_in_range(clusters, offset, 0);
    }
}

/// The characters of `text`, one by one.
pub(crate) fn to_chars(text: &str) -> (chars: Vec<char>)
    ensures
        chars@ == text@,
{
    let mut chars: Vec<char> = Vec::new();
    for c in it: text.chars()
        invariant
            it.seq() == text@,
            chars@ == it.seq().take(it.index() as int),
    {
        chars.push(c);
    }
    chars
}

/// Appends `count` spaces to `text`.
pub(crate) fn push_spaces(text: &mut String, count: usize)
    ensures
        final(text)@ == old(text)@ + spaces(count as nat),
{
    let mut i: usize = 0;
    while i < count
        invariant
            i <= count,
            text@ == old(text)@ + spaces(i as nat),
        decreases count - i,
    {
        push_char(text, ' ');
        i = i + 1;
    }
}

} // verus!
